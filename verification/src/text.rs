//! Text helpers: comparison, prefix stripping, case folding and UTF-8 decoding.

use vstd::prelude::*;
use vstd::string::*;
use vstd::utf8::*;

verus! {

/// The lowercase form of `text`.
///
/// Stands for what [`str::to_lowercase`] returns; nothing is said here of the
/// mapping itself.
pub uninterp spec fn lowercase(text: Seq<char>) -> Seq<char>;

/// Calls [`str::to_lowercase`].
///
/// Trusted: the returned string is the lowercase form of `text` that the
/// standard library computes from the characters of `text` alone.
#[verifier::external_body]
pub(crate) fn to_lowercase(text: &str) -> (lower: String)
    ensures
        lower@ == lowercase(text@),
{
    text.to_lowercase()
}

/// What is left of `text` once a leading `prefix` is removed, if it starts with one.
pub open spec fn strip_prefix_spec(text: Seq<char>, prefix: Seq<char>) -> Option<Seq<char>> {
    if prefix.is_prefix_of(text) {
        Some(text.skip(prefix.len() as int))
    } else {
        None
    }
}

/// Calls [`str::strip_prefix`] with a string pattern.
///
/// Trusted: when `text` starts with `prefix` the rest of `text` after it is
/// returned, and `None` otherwise.
#[verifier::external_body]
pub(crate) fn strip_prefix<'a>(text: &'a str, prefix: &str) -> (rest: Option<&'a str>)
    ensures
        match rest {
            Some(tail) => strip_prefix_spec(text@, prefix@) == Some(tail@),
            None => strip_prefix_spec(text@, prefix@) is None,
        },
{
    text.strip_prefix(prefix)
}

/// The text that `bytes` encode, if they are well-formed UTF-8.
pub open spec fn utf8_text(bytes: Seq<u8>) -> Option<Seq<char>> {
    if valid_utf8(bytes) {
        Some(decode_utf8(bytes))
    } else {
        None
    }
}

/// Calls [`std::str::from_utf8`] and copies the text it yields.
///
/// Trusted: the call succeeds exactly on well-formed UTF-8, and the string it
/// yields holds the characters that the bytes encode.
#[verifier::external_body]
pub(crate) fn decode_text(bytes: &[u8]) -> (text: Option<String>)
    ensures
        match text {
            Some(t) => utf8_text(bytes@) == Some(t@),
            None => utf8_text(bytes@) is None,
        },
{
    match std::str::from_utf8(bytes) {
        Ok(text) => Some(text.to_owned()),
        Err(_) => None,
    }
}

/// Whether two strings hold the same characters.
pub fn same_text(a: &str, b: &str) -> (same: bool)
    ensures
        same == (a@ == b@),
{
    let x = a.as_bytes();
    let y = b.as_bytes();
    proof {
        encode_utf8_decode_utf8(a@);
        encode_utf8_decode_utf8(b@);
    }
    if x.len() != y.len() {
        return false;
    }
    let mut i: usize = 0;
    while i < x.len()
        invariant
            i <= x.len(),
            x.len() == y.len(),
            x@ == encode_utf8(a@),
            y@ == encode_utf8(b@),
            forall|j: int| 0 <= j < i ==> x@[j] == y@[j],
        decreases x.len() - i,
    {
        if x[i] != y[i] {
            return false;
        }
        i += 1;
    }
    assert(x@ =~= y@);
    true
}

/// `head` followed by `tail`, as a new string.
pub fn join(head: &str, tail: &str) -> (joined: String)
    ensures
        joined@ == head@ + tail@,
{
    let mut joined = String::from_str(head);
    joined.append(tail);
    joined
}

/// No byte from `0xF8` up starts a UTF-8 sequence, so bytes that begin with
/// one encode no text.
pub proof fn lemma_leading_byte_out_of_range(bytes: Seq<u8>)
    requires
        bytes.len() > 0,
        bytes[0] >= 0xf8,
    ensures
        utf8_text(bytes) is None,
{
}

/// Removing a prefix that was just put in front gives back the rest.
pub proof fn lemma_strip_prefix_restores(prefix: Seq<char>, rest: Seq<char>)
    ensures
        strip_prefix_spec(prefix + rest, prefix) == Some(rest),
{
    let whole = prefix + rest;
    assert(whole.subrange(0, prefix.len() as int) =~= prefix);
    assert(whole.skip(prefix.len() as int) =~= rest);
}

} // verus!
