//! Policy enforcement: the question put to the policy engine, its decision,
//! and the rule that turns whatever the engine answered into allow or deny.

use crate::security::SecurityContext;
use crate::text::join;
use vstd::prelude::*;

verus! {

/// The question put to the policy engine: may this subject do `action` on `resource`?
#[derive(Debug)]
pub struct EvaluationRequest {
    /// The caller on whose identity the decision is made.
    pub security_context: SecurityContext,
    /// The resource asked about: the route's `policy_resource`.
    pub resource: String,
    /// The action asked about: the route's `policy_action`.
    pub action: String,
}

/// An evaluation request as a value of the model.
pub struct EvaluationRequestView {
    pub security_context: SecurityContext,
    pub resource: Seq<char>,
    pub action: Seq<char>,
}

impl View for EvaluationRequest {
    type V = EvaluationRequestView;

    open spec fn view(&self) -> EvaluationRequestView {
        EvaluationRequestView {
            security_context: self.security_context,
            resource: self.resource@,
            action: self.action@,
        }
    }
}

impl EvaluationRequest {
    /// A copy of the request.
    pub fn duplicate(&self) -> (copy: Self)
        ensures
            copy@ == self@,
    {
        EvaluationRequest {
            security_context: self.security_context,
            resource: self.resource.clone(),
            action: self.action.clone(),
        }
    }
}

/// What the policy engine decided.
///
/// Only `allow` gates a call. The constraints are kept for audit.
#[derive(Debug)]
pub struct Decision {
    /// Whether the call may proceed.
    pub allow: bool,
    /// Why it may not, where the engine says so.
    pub deny_reason: Option<String>,
    /// The constraints that the engine attached, in its order.
    pub constraints: Vec<String>,
}

/// A decision as a value of the model.
pub struct DecisionView {
    pub allow: bool,
    pub deny_reason: Option<Seq<char>>,
    pub constraints: Seq<Seq<char>>,
}

/// The text of an optional string.
pub open spec fn optional_text(text: Option<String>) -> Option<Seq<char>> {
    match text {
        Some(text) => Some(text@),
        None => None,
    }
}

/// The texts of a list of strings.
pub open spec fn texts(list: Seq<String>) -> Seq<Seq<char>> {
    Seq::new(list.len(), |index: int| list[index]@)
}

impl View for Decision {
    type V = DecisionView;

    open spec fn view(&self) -> DecisionView {
        DecisionView {
            allow: self.allow,
            deny_reason: optional_text(self.deny_reason),
            constraints: texts(self.constraints@),
        }
    }
}

impl Decision {
    /// The decision that lets the call proceed, with no constraint.
    pub fn allowed() -> (decision: Self)
        ensures
            decision@ == (DecisionView {
                allow: true,
                deny_reason: None,
                constraints: Seq::empty(),
            }),
    {
        let decision = Decision { allow: true, deny_reason: None, constraints: Vec::new() };
        assert(decision@.constraints =~= Seq::empty());
        decision
    }

    /// The decision that stops the call, with the reason if one is known.
    pub fn denied(reason: Option<String>) -> (decision: Self)
        ensures
            decision@ == (DecisionView {
                allow: false,
                deny_reason: optional_text(reason),
                constraints: Seq::empty(),
            }),
    {
        let decision = Decision { allow: false, deny_reason: reason, constraints: Vec::new() };
        assert(decision@.constraints =~= Seq::empty());
        decision
    }
}

/// The policy engine could not be asked or failed to answer.
#[derive(Debug)]
pub struct EvalError {
    /// What went wrong, as text.
    pub message: String,
}

/// What came back from the policy engine, as a value of the model.
pub enum EvaluationView {
    Decided(DecisionView),
    Failed(Seq<char>),
}

/// The model of what came back from the policy engine.
pub open spec fn evaluation_view(outcome: Result<Decision, EvalError>) -> EvaluationView {
    match outcome {
        Ok(decision) => EvaluationView::Decided(decision@),
        Err(error) => EvaluationView::Failed(error.message@),
    }
}

/// The decision that an answer of the policy engine amounts to: the
/// engine's own decision where it gave one, and a denial that names the
/// failure where it gave none.
pub open spec fn enforced(outcome: EvaluationView) -> DecisionView {
    match outcome {
        EvaluationView::Decided(decision) => decision,
        EvaluationView::Failed(message) => DecisionView {
            allow: false,
            deny_reason: Some("policy evaluation failed: "@ + message),
            constraints: Seq::empty(),
        },
    }
}

/// The adapter between the pipeline and the policy engine. It keeps no state
/// and caches no decision.
#[derive(Debug)]
pub struct PolicyEnforcer;

impl PolicyEnforcer {
    /// The question to put to the policy engine for a caller, a resource and an action.
    pub fn request(security_context: SecurityContext, resource: &str, action: &str) -> (request:
        EvaluationRequest)
        ensures
            request@ == (EvaluationRequestView {
                security_context,
                resource: resource@,
                action: action@,
            }),
    {
        EvaluationRequest {
            security_context,
            resource: resource.to_owned(),
            action: action.to_owned(),
        }
    }

    /// Turns what came back from the policy engine into a decision. An
    /// engine that failed to decide has not allowed the call.
    pub fn decide(outcome: Result<Decision, EvalError>) -> (decision: Decision)
        ensures
            decision@ == enforced(evaluation_view(outcome)),
    {
        match outcome {
            Ok(decision) => decision,
            Err(error) => Decision::denied(
                Some(join("policy evaluation failed: ", error.message.as_str())),
            ),
        }
    }
}

} // verus!
