//! Telling the two request shapes apart by the keys of the inbound body.

use vstd::prelude::*;

verus! {

/// `serde_json::Value`: a generic structured body, as the server's decoder
/// produces it. Nothing of its inside is visible here but the keys named by
/// [`object_keys`].
#[verifier::external_type_specification]
#[verifier::external_body]
pub struct ExValue(serde_json::Value);

/// The keys at the top level of a body: the member names of a JSON object,
/// and no key at all for any other kind of value.
pub uninterp spec fn object_keys(body: serde_json::Value) -> Set<Seq<char>>;

/// The shape that an inbound body announces by its top-level keys.
#[derive(Debug, Clone, Copy, PartialEq, Eq, Structural)]
pub enum RequestKind {
    /// The content-list shape: the body has a `contents` member.
    Canonical,
    /// The message-list shape: the body has a `messages` member and no
    /// `contents` member.
    Legacy,
    /// Neither member is there.
    Unrecognized,
}

/// The shape announced by a set of top-level keys. `contents` decides first:
/// a body that carries both members counts as content-list.
pub open spec fn kind_of_keys(keys: Set<Seq<char>>) -> RequestKind {
    if keys.contains("contents"@) {
        RequestKind::Canonical
    } else if keys.contains("messages"@) {
        RequestKind::Legacy
    } else {
        RequestKind::Unrecognized
    }
}

/// The member of a body under the given top-level key, if there is one.
///
/// Calls `serde_json::Value::get` with a string index. Trusted: the lookup
/// finds a value exactly when the body is an object that has a member of
/// that name, whatever the member holds; on arrays, strings, numbers,
/// booleans and null it finds nothing.
#[verifier::external_body]
fn member<'a>(body: &'a serde_json::Value, key: &str) -> (found: Option<&'a serde_json::Value>)
    ensures
        found is Some <==> object_keys(*body).contains(key@),
{
    body.get(key)
}

/// Decides which shape an inbound body is in. Only the presence of the two
/// member names is looked at, never what they hold.
pub fn classify(body: &serde_json::Value) -> (kind: RequestKind)
    ensures
        kind == kind_of_keys(object_keys(*body)),
        object_keys(*body).contains("contents"@) ==> kind == RequestKind::Canonical,
        !object_keys(*body).contains("contents"@) && object_keys(*body).contains("messages"@)
            ==> kind == RequestKind::Legacy,
        !object_keys(*body).contains("contents"@) && !object_keys(*body).contains("messages"@)
            ==> kind == RequestKind::Unrecognized,
{
    if member(body, "contents").is_some() {
        RequestKind::Canonical
    } else if member(body, "messages").is_some() {
        RequestKind::Legacy
    } else {
        RequestKind::Unrecognized
    }
}

} // verus!
