//! The in-memory store behind the registry: entities in the order in which
//! they were stored, no two of them with the same tenant and id.

use crate::domain::model::{Route, TenantScoped, Upstream};
use vstd::prelude::*;

verus! {

/// No two entities share tenant and id.
pub open spec fn unique_scopes<T: TenantScoped>(items: Seq<T::V>) -> bool {
    forall|i: int, j: int|
        0 <= i < j < items.len() ==> T::scope(#[trigger] items[i]) != T::scope(#[trigger] items[j])
}

/// Whether the entity at `index` is the one that `tenant` knows as `id`.
pub open spec fn is_at<T: TenantScoped>(items: Seq<T::V>, index: int, tenant: u128, id: u128) -> bool {
    0 <= index < items.len() && T::scope(items[index]) == (tenant, id)
}

/// Whether `tenant` has an entity with this id.
pub open spec fn holds<T: TenantScoped>(items: Seq<T::V>, tenant: u128, id: u128) -> bool {
    exists|index: int| is_at::<T>(items, index, tenant, id)
}

/// Where the entity that `tenant` knows as `id` is stored.
pub open spec fn index_of<T: TenantScoped>(items: Seq<T::V>, tenant: u128, id: u128) -> int {
    choose|index: int| is_at::<T>(items, index, tenant, id)
}

/// The entity that `tenant` knows as `id`, if there is one. An entity of
/// another tenant is never returned, whatever its id.
pub open spec fn scoped<T: TenantScoped>(items: Seq<T::V>, tenant: u128, id: u128) -> Option<T::V> {
    if holds::<T>(items, tenant, id) {
        Some(items[index_of::<T>(items, tenant, id)])
    } else {
        None
    }
}

/// The entities of `tenant`, in the order in which they were stored.
pub open spec fn of_tenant<T: TenantScoped>(items: Seq<T::V>, tenant: u128) -> Seq<T::V>
    decreases items.len(),
{
    if items.len() == 0 {
        Seq::empty()
    } else {
        let earlier = of_tenant::<T>(items.drop_last(), tenant);
        if T::scope(items.last()).0 == tenant {
            earlier.push(items.last())
        } else {
            earlier
        }
    }
}

/// The store without the entity that `tenant` knows as `id`.
pub open spec fn without<T: TenantScoped>(items: Seq<T::V>, tenant: u128, id: u128) -> Seq<T::V> {
    if holds::<T>(items, tenant, id) {
        items.remove(index_of::<T>(items, tenant, id))
    } else {
        items
    }
}

/// The least number, counted up from `from`, under which `tenant` has no
/// entity. The count stops at the number of stored entities at the latest.
pub open spec fn least_free_from<T: TenantScoped>(items: Seq<T::V>, tenant: u128, from: nat) -> nat
    decreases items.len() + 1 - from,
{
    if from < items.len() && holds::<T>(items, tenant, from as u128) {
        least_free_from::<T>(items, tenant, from + 1)
    } else {
        from
    }
}

/// The id that a new entity of `tenant` gets when `preferred` is the id it
/// would like: `preferred` itself when the tenant has nothing under it, and
/// otherwise the least id that the tenant has nothing under.
pub open spec fn fresh_id<T: TenantScoped>(items: Seq<T::V>, tenant: u128, preferred: u128) -> u128 {
    if holds::<T>(items, tenant, preferred) {
        least_free_from::<T>(items, tenant, 0) as u128
    } else {
        preferred
    }
}

/// A tenant cannot hold more ids than there are entities: when it has an
/// entity under every id below `count`, the store holds `count` entities at
/// least.
pub proof fn lemma_held_ids_fit<T: TenantScoped>(items: Seq<T::V>, tenant: u128, count: nat)
    requires
        count <= u128::MAX,
        forall|id: u128| id < count ==> holds::<T>(items, tenant, id),
    ensures
        count <= items.len(),
    decreases count,
{
    if count > 0 {
        let last = (count - 1) as u128;
        assert(holds::<T>(items, tenant, last));
        let at = index_of::<T>(items, tenant, last);
        assert(is_at::<T>(items, at, tenant, last));
        let rest = items.remove(at);
        assert forall|id: u128| id < count - 1 implies holds::<T>(rest, tenant, id) by {
            assert(holds::<T>(items, tenant, id));
            let from = index_of::<T>(items, tenant, id);
            assert(is_at::<T>(items, from, tenant, id));
            let to = if from < at { from } else { from - 1 };
            assert(rest[to] == items[from]);
            assert(is_at::<T>(rest, to, tenant, id));
        }
        lemma_held_ids_fit::<T>(rest, tenant, (count - 1) as nat);
    }
}

/// The id that a new entity gets is one that its tenant has nothing under.
pub proof fn lemma_fresh_id_is_free<T: TenantScoped>(items: Seq<T::V>, tenant: u128, preferred: u128)
    requires
        items.len() < u128::MAX,
    ensures
        !holds::<T>(items, tenant, fresh_id::<T>(items, tenant, preferred)),
        !holds::<T>(items, tenant, preferred) ==> fresh_id::<T>(items, tenant, preferred)
            == preferred,
        least_free_from::<T>(items, tenant, 0) <= items.len(),
{
    lemma_least_free_from::<T>(items, tenant, 0);
}

/// Counting up from `from`, past ids that the tenant holds, ends at an id that
/// it does not hold, which is the least such id.
proof fn lemma_least_free_from<T: TenantScoped>(items: Seq<T::V>, tenant: u128, from: nat)
    requires
        items.len() < u128::MAX,
        from <= items.len(),
        forall|id: u128| id < from ==> holds::<T>(items, tenant, id),
    ensures
        from <= least_free_from::<T>(items, tenant, from) <= items.len(),
        !holds::<T>(items, tenant, least_free_from::<T>(items, tenant, from) as u128),
        forall|id: u128|
            id < least_free_from::<T>(items, tenant, from) ==> holds::<T>(items, tenant, id),
    decreases items.len() + 1 - from,
{
    if holds::<T>(items, tenant, from as u128) {
        assert forall|id: u128| id < from + 1 implies holds::<T>(items, tenant, id) by {
            if id == from {
                assert(id == from as u128);
            }
        }
        lemma_held_ids_fit::<T>(items, tenant, from + 1);
        lemma_least_free_from::<T>(items, tenant, from + 1);
    }
}

/// In a store without duplicates, the entity found at an index is the one
/// that its tenant and id name.
pub proof fn lemma_scoped_at<T: TenantScoped>(items: Seq<T::V>, index: int)
    requires
        unique_scopes::<T>(items),
        0 <= index < items.len(),
    ensures
        holds::<T>(items, T::scope(items[index]).0, T::scope(items[index]).1),
        index_of::<T>(items, T::scope(items[index]).0, T::scope(items[index]).1) == index,
        scoped::<T>(items, T::scope(items[index]).0, T::scope(items[index]).1) == Some(
            items[index],
        ),
{
    let (tenant, id) = T::scope(items[index]);
    assert(is_at::<T>(items, index, tenant, id));
    let found = index_of::<T>(items, tenant, id);
    assert(is_at::<T>(items, found, tenant, id));
    if found < index {
        assert(T::scope(items[found]) != T::scope(items[index]));
    } else if index < found {
        assert(T::scope(items[index]) != T::scope(items[found]));
    }
}

/// Tenant isolation of lookups: what a lookup returns belongs to the tenant
/// that asked and has the id that was asked for.
pub proof fn lemma_scoped_is_own<T: TenantScoped>(items: Seq<T::V>, tenant: u128, id: u128)
    ensures
        scoped::<T>(items, tenant, id) matches Some(found) ==> T::scope(found) == (tenant, id)
            && items.contains(found),
        scoped::<T>(items, tenant, id) is None ==> forall|index: int|
            0 <= index < items.len() ==> T::scope(#[trigger] items[index]) != (tenant, id),
{
    if holds::<T>(items, tenant, id) {
        let found = index_of::<T>(items, tenant, id);
        assert(is_at::<T>(items, found, tenant, id));
    } else {
        assert forall|index: int| 0 <= index < items.len() implies T::scope(
            #[trigger] items[index],
        ) != (tenant, id) by {
            if T::scope(items[index]) == (tenant, id) {
                assert(is_at::<T>(items, index, tenant, id));
            }
        }
    }
}

/// Tenant isolation of stores: an entity stored under one tenant changes
/// nothing of what any other tenant finds or lists, even where ids collide.
pub proof fn lemma_store_is_tenant_local<T: TenantScoped>(
    items: Seq<T::V>,
    item: T::V,
    tenant: u128,
    id: u128,
)
    requires
        unique_scopes::<T>(items),
        T::scope(item).0 != tenant,
    ensures
        scoped::<T>(items.push(item), tenant, id) == scoped::<T>(items, tenant, id),
        of_tenant::<T>(items.push(item), tenant) == of_tenant::<T>(items, tenant),
{
    let stored = items.push(item);
    assert(stored.drop_last() =~= items);
    if holds::<T>(items, tenant, id) {
        let at = index_of::<T>(items, tenant, id);
        assert(is_at::<T>(items, at, tenant, id));
        assert(is_at::<T>(stored, at, tenant, id));
        let found = index_of::<T>(stored, tenant, id);
        assert(is_at::<T>(stored, found, tenant, id));
        assert(found < items.len());
        assert(is_at::<T>(items, found, tenant, id));
        if found < at {
            assert(T::scope(items[found]) != T::scope(items[at]));
        } else if at < found {
            assert(T::scope(items[at]) != T::scope(items[found]));
        }
    } else if holds::<T>(stored, tenant, id) {
        let found = index_of::<T>(stored, tenant, id);
        assert(is_at::<T>(stored, found, tenant, id));
        assert(is_at::<T>(items, found, tenant, id));
    }
}

/// Once removed, an entity is gone: the tenant has nothing under the id any
/// more, so that removing it again changes nothing.
pub proof fn lemma_without_is_gone<T: TenantScoped>(items: Seq<T::V>, tenant: u128, id: u128)
    requires
        unique_scopes::<T>(items),
    ensures
        !holds::<T>(without::<T>(items, tenant, id), tenant, id),
        without::<T>(without::<T>(items, tenant, id), tenant, id) == without::<T>(
            items,
            tenant,
            id,
        ),
        unique_scopes::<T>(without::<T>(items, tenant, id)),
{
    let rest = without::<T>(items, tenant, id);
    if holds::<T>(items, tenant, id) {
        let at = index_of::<T>(items, tenant, id);
        assert(is_at::<T>(items, at, tenant, id));
        assert forall|k: int| !is_at::<T>(rest, k, tenant, id) by {
            if is_at::<T>(rest, k, tenant, id) {
                let from = if k < at { k } else { k + 1 };
                assert(rest[k] == items[from]);
                if from < at {
                    assert(T::scope(items[from]) != T::scope(items[at]));
                } else {
                    assert(T::scope(items[at]) != T::scope(items[from]));
                }
            }
        }
        assert forall|i: int, j: int| 0 <= i < j < rest.len() implies T::scope(
            #[trigger] rest[i],
        ) != T::scope(#[trigger] rest[j]) by {
            let a = if i < at { i } else { i + 1 };
            let b = if j < at { j } else { j + 1 };
            assert(rest[i] == items[a]);
            assert(rest[j] == items[b]);
        }
    }
}

/// What a tenant lists is what the store holds for it: every listed entity
/// is stored under the tenant, and every entity stored under it is listed.
pub proof fn lemma_of_tenant_members<T: TenantScoped>(items: Seq<T::V>, tenant: u128)
    ensures
        forall|k: int|
            0 <= k < of_tenant::<T>(items, tenant).len() ==> T::scope(
                #[trigger] of_tenant::<T>(items, tenant)[k],
            ).0 == tenant && items.contains(of_tenant::<T>(items, tenant)[k]),
        forall|index: int|
            0 <= index < items.len() && T::scope(#[trigger] items[index]).0 == tenant
                ==> of_tenant::<T>(items, tenant).contains(items[index]),
    decreases items.len(),
{
    if items.len() > 0 {
        let front = items.drop_last();
        lemma_of_tenant_members::<T>(front, tenant);
        let listed = of_tenant::<T>(items, tenant);
        let earlier = of_tenant::<T>(front, tenant);
        assert forall|k: int| 0 <= k < listed.len() implies T::scope(#[trigger] listed[k]).0
            == tenant && items.contains(listed[k]) by {
            if k < earlier.len() {
                assert(listed[k] == earlier[k]);
                let at = choose|at: int| 0 <= at < front.len() && front[at] == earlier[k];
                assert(items[at] == listed[k]);
            } else {
                assert(items[items.len() - 1] == listed[k]);
            }
        }
        assert forall|index: int|
            0 <= index < items.len() && T::scope(
                #[trigger] items[index],
            ).0 == tenant implies listed.contains(items[index]) by {
            if index < front.len() {
                assert(front[index] == items[index]);
                let k = choose|k: int| 0 <= k < earlier.len() && earlier[k] == front[index];
                assert(listed[k] == items[index]);
            } else {
                assert(listed[listed.len() - 1] == items[index]);
            }
        }
    }
}

/// Entities of type `T`, kept apart by tenant.
#[derive(Debug)]
pub struct TenantStore<T: TenantScoped> {
    items: Vec<T>,
}

/// The store of upstreams.
pub type InMemoryUpstreamRepo = TenantStore<Upstream>;

/// The store of routes.
pub type InMemoryRouteRepo = TenantStore<Route>;

/// The entities of the model that stored values stand for.
pub open spec fn views<T: TenantScoped>(items: Seq<T>) -> Seq<T::V> {
    Seq::new(items.len(), |index: int| items[index]@)
}

impl<T: TenantScoped> View for TenantStore<T> {
    type V = Seq<T::V>;

    closed spec fn view(&self) -> Seq<T::V> {
        views(self.items@)
    }
}

impl<T: TenantScoped> TenantStore<T> {
    #[verifier::type_invariant]
    spec fn well_formed(self) -> bool {
        unique_scopes::<T>(self@)
    }

    /// An empty store.
    pub fn new() -> (store: Self)
        ensures
            store@ == Seq::<T::V>::empty(),
    {
        let store = TenantStore { items: Vec::new() };
        assert(store@ =~= Seq::<T::V>::empty());
        store
    }

    /// The number of entities of all tenants.
    pub fn len(&self) -> (n: usize)
        ensures
            n == self@.len(),
            unique_scopes::<T>(self@),
    {
        proof {
            use_type_invariant(self);
        }
        self.items.len()
    }

    /// The entity at `index` in the order of storing.
    pub fn at(&self, index: usize) -> (item: Option<&T>)
        ensures
            match item {
                Some(found) => index < self@.len() && found@ == self@[index as int],
                None => index >= self@.len(),
            },
    {
        if index < self.items.len() {
            Some(&self.items[index])
        } else {
            None
        }
    }

    /// Where the entity that `tenant` knows as `id` is stored.
    fn position(&self, tenant: u128, id: u128) -> (found: Option<usize>)
        ensures
            match found {
                Some(index) => is_at::<T>(self@, index as int, tenant, id) && index_of::<T>(
                    self@,
                    tenant,
                    id,
                ) == index && holds::<T>(self@, tenant, id),
                None => !holds::<T>(self@, tenant, id),
            },
    {
        proof {
            use_type_invariant(self);
        }
        let mut index: usize = 0;
        while index < self.items.len()
            invariant
                index <= self.items@.len(),
                self@.len() == self.items@.len(),
                unique_scopes::<T>(self@),
                forall|k: int| 0 <= k < index ==> !is_at::<T>(self@, k, tenant, id),
            decreases self.items@.len() - index,
        {
            let item = &self.items[index];
            assert(item@ == self@[index as int]);
            if item.tenant_id() == tenant && item.id() == id {
                proof {
                    lemma_scoped_at::<T>(self@, index as int);
                }
                return Some(index);
            }
            index += 1;
        }
        None
    }

    /// An id for a new entity of `tenant`: `preferred` when the tenant has
    /// nothing under it, and otherwise the least id that the tenant has
    /// nothing under. The tenant has nothing under the id that is returned.
    pub fn free_id(&self, tenant: u128, preferred: u128) -> (id: u128)
        ensures
            id == fresh_id::<T>(self@, tenant, preferred),
            !holds::<T>(self@, tenant, id),
    {
        if self.position(tenant, preferred).is_none() {
            return preferred;
        }
        let count = self.items.len();
        let mut candidate: usize = 0;
        loop
            invariant
                count == self@.len(),
                candidate <= count,
                holds::<T>(self@, tenant, preferred),
                forall|id: u128| id < candidate ==> holds::<T>(self@, tenant, id),
                least_free_from::<T>(self@, tenant, 0) == least_free_from::<T>(
                    self@,
                    tenant,
                    candidate as nat,
                ),
            decreases count - candidate,
        {
            match self.position(tenant, candidate as u128) {
                None => {
                    return candidate as u128;
                },
                Some(_) => {
                    proof {
                        assert forall|id: u128| id < candidate + 1 implies holds::<T>(
                            self@,
                            tenant,
                            id,
                        ) by {
                            if id == candidate {
                                assert(id == candidate as u128);
                            }
                        }
                        lemma_held_ids_fit::<T>(self@, tenant, (candidate + 1) as nat);
                    }
                    candidate += 1;
                },
            }
        }
    }

    /// A copy of the entity that `tenant` knows as `id`.
    pub fn get(&self, tenant: u128, id: u128) -> (found: Option<T>)
        ensures
            match found {
                Some(item) => scoped::<T>(self@, tenant, id) == Some(item@),
                None => scoped::<T>(self@, tenant, id) is None,
            },
            unique_scopes::<T>(self@),
    {
        proof {
            use_type_invariant(self);
        }
        match self.position(tenant, id) {
            Some(index) => {
                let item = &self.items[index];
                assert(item@ == self@[index as int]);
                Some(item.duplicate())
            },
            None => None,
        }
    }

    /// Copies of the entities of `tenant`, in the order of storing.
    pub fn list(&self, tenant: u128) -> (listed: Vec<T>)
        ensures
            listed@.len() == of_tenant::<T>(self@, tenant).len(),
            forall|k: int|
                0 <= k < listed@.len() ==> (#[trigger] listed@[k])@ == of_tenant::<T>(
                    self@,
                    tenant,
                )[k],
    {
        let mut listed: Vec<T> = Vec::new();
        let mut index: usize = 0;
        assert(self@.take(0) =~= Seq::<T::V>::empty());
        while index < self.items.len()
            invariant
                index <= self.items@.len(),
                self@.len() == self.items@.len(),
                listed@.len() == of_tenant::<T>(self@.take(index as int), tenant).len(),
                forall|k: int|
                    0 <= k < listed@.len() ==> (#[trigger] listed@[k])@ == of_tenant::<T>(
                        self@.take(index as int),
                        tenant,
                    )[k],
            decreases self.items@.len() - index,
        {
            let item = &self.items[index];
            proof {
                let next = self@.take(index + 1);
                assert(next.drop_last() =~= self@.take(index as int));
                assert(next.last() == item@);
            }
            if item.tenant_id() == tenant {
                listed.push(item.duplicate());
            }
            index += 1;
        }
        assert(self@.take(index as int) =~= self@);
        listed
    }

    /// Stores `item` unless its tenant already has an entity with its id.
    /// Says whether it was stored.
    pub fn insert(&mut self, item: T) -> (stored: bool)
        ensures
            stored == !holds::<T>(old(self)@, T::scope(item@).0, T::scope(item@).1),
            final(self)@ == if stored {
                old(self)@.push(item@)
            } else {
                old(self)@
            },
    {
        proof {
            use_type_invariant(&*self);
        }
        match self.position(item.tenant_id(), item.id()) {
            Some(_) => false,
            None => {
                let ghost before = self@;
                let ghost added = item@;
                let mut items = Vec::new();
                std::mem::swap(&mut items, &mut self.items);
                items.push(item);
                proof {
                    let after = views(items@);
                    assert(after =~= before.push(added));
                    assert forall|i: int, j: int| 0 <= i < j < after.len() implies T::scope(
                        #[trigger] after[i],
                    ) != T::scope(#[trigger] after[j]) by {
                        if j == before.len() {
                            if T::scope(after[i]) == T::scope(added) {
                                assert(is_at::<T>(
                                    before,
                                    i,
                                    T::scope(added).0,
                                    T::scope(added).1,
                                ));
                            }
                        } else {
                            assert(after[i] == before[i]);
                            assert(after[j] == before[j]);
                        }
                    }
                }
                self.items = items;
                true
            },
        }
    }

    /// Removes the entity that `tenant` knows as `id`. Says whether there
    /// was one; removing what is not there changes nothing.
    pub fn delete(&mut self, tenant: u128, id: u128) -> (deleted: bool)
        ensures
            deleted == holds::<T>(old(self)@, tenant, id),
            final(self)@ == without::<T>(old(self)@, tenant, id),
            !holds::<T>(final(self)@, tenant, id),
    {
        proof {
            use_type_invariant(&*self);
            lemma_without_is_gone::<T>(self@, tenant, id);
        }
        match self.position(tenant, id) {
            Some(index) => {
                let ghost before = self@;
                let mut items = Vec::new();
                std::mem::swap(&mut items, &mut self.items);
                items.remove(index);
                proof {
                    let after = views(items@);
                    assert(after =~= before.remove(index as int));
                    assert forall|i: int, j: int| 0 <= i < j < after.len() implies T::scope(
                        #[trigger] after[i],
                    ) != T::scope(#[trigger] after[j]) by {
                        let a = if i < index { i } else { i + 1 };
                        let b = if j < index { j } else { j + 1 };
                        assert(after[i] == before[a]);
                        assert(after[j] == before[b]);
                    }
                }
                self.items = items;
                true
            },
            None => false,
        }
    }
}

} // verus!
