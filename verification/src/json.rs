//! The JSON documents that the pipeline reads and writes are handled by
//! `serde_json`. Nothing in this module is proved: each function states what
//! the corresponding `serde_json` function computes, under a name.

use vstd::prelude::*;

verus! {

/// A JSON document, as `serde_json` holds it. Opaque to the proofs.
#[verifier::external_type_specification]
#[verifier::external_body]
pub struct ExJsonValue(serde_json::Value);

/// The error of `serde_json`. Opaque to the proofs.
#[verifier::external_type_specification]
#[verifier::external_body]
pub struct ExJsonError(serde_json::Error);

/// What `serde_json::from_str` makes of a text: the document it denotes, or
/// `None` where the text is rejected.
pub uninterp spec fn json_parsed(text: Seq<char>) -> Option<serde_json::Value>;

/// What indexing a document by a key gives (`Index<&str>` of
/// `serde_json::Value`).
pub uninterp spec fn json_member(doc: serde_json::Value, key: Seq<char>) -> serde_json::Value;

/// What `serde_json::Value::as_str` gives.
pub uninterp spec fn json_as_str(doc: serde_json::Value) -> Option<Seq<char>>;

/// The document that is one string (`serde_json::Value::String`).
pub uninterp spec fn json_string(s: Seq<char>) -> serde_json::Value;

/// The object that `serde_json::Map` collects from a sequence of members,
/// taken in order.
pub uninterp spec fn json_object(members: Seq<(Seq<char>, serde_json::Value)>) -> serde_json::Value;

/// What `serde_json::to_string` writes for a document, or `None` where it
/// fails.
pub uninterp spec fn json_text(doc: serde_json::Value) -> Option<Seq<char>>;

/// The members of an object under construction, as the names above see them.
pub open spec fn members_view(members: Seq<(String, serde_json::Value)>) -> Seq<(Seq<char>, serde_json::Value)> {
    members.map_values(|m: (String, serde_json::Value)| (m.0@, m.1))
}

/// The member at place `k` is the only one of its key.
pub open spec fn sole_member(members: Seq<(Seq<char>, serde_json::Value)>, k: int) -> bool {
    0 <= k < members.len() && forall|j: int|
        0 <= j < members.len() && j != k ==> (#[trigger] members[j]).0 != members[k].0
}

/// Calls `serde_json::from_str` for a `serde_json::Value`. The result is `Ok`
/// exactly where `json_parsed` names a document, and then holds that
/// document.
#[verifier::external_body]
pub(crate) fn parse(text: &str) -> (r: Result<serde_json::Value, serde_json::Error>)
    ensures
        match r {
            Ok(doc) => json_parsed(text@) == Some(doc),
            Err(_) => json_parsed(text@) is None,
        },
{
    serde_json::from_str::<serde_json::Value>(text)
}

/// Indexes a document by a key, as `Index<&str>` of `serde_json::Value` does:
/// it never fails, and gives the null document where there is no such member.
#[verifier::external_body]
pub(crate) fn member<'a>(doc: &'a serde_json::Value, key: &str) -> (r: &'a serde_json::Value)
    ensures
        *r == json_member(*doc, key@),
{
    &doc[key]
}

/// Calls `serde_json::Value::as_str` and copies the string out.
#[verifier::external_body]
pub(crate) fn as_string(doc: &serde_json::Value) -> (r: Option<String>)
    ensures
        match r {
            Some(s) => json_as_str(*doc) == Some(s@),
            None => json_as_str(*doc) is None,
        },
{
    doc.as_str().map(String::from)
}

/// Makes the document `serde_json::Value::String` of a string. Read by
/// `serde_json::Value::as_str`, such a document gives the string back.
#[verifier::external_body]
pub(crate) fn string_value(s: String) -> (r: serde_json::Value)
    ensures
        r == json_string(s@),
        json_as_str(r) == Some(s@),
{
    serde_json::Value::String(s)
}

/// Collects members into a `serde_json::Map`, in order, and makes the object
/// document of it. A member that is the only one of its key is kept, and
/// indexing the object by that key gives its value. Of members that share a
/// key nothing is said.
#[verifier::external_body]
pub(crate) fn object_value(members: Vec<(String, serde_json::Value)>) -> (r: serde_json::Value)
    ensures
        r == json_object(members_view(members@)),
        forall|k: int| #[trigger]
            sole_member(members_view(members@), k) ==> json_member(r, members_view(members@)[k].0)
                == members_view(members@)[k].1,
{
    serde_json::Value::Object(members.into_iter().collect())
}

/// Calls `serde_json::to_string` on a document. The result is `Ok` exactly
/// where `json_text` names a text, and then holds that text.
#[verifier::external_body]
pub(crate) fn to_text(doc: &serde_json::Value) -> (r: Result<String, serde_json::Error>)
    ensures
        match r {
            Ok(s) => json_text(*doc) == Some(s@),
            Err(_) => json_text(*doc) is None,
        },
{
    serde_json::to_string(doc)
}

} // verus!
