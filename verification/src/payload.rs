use vstd::prelude::*;

verus! {

/// Text of the member `inner` of the member `outer` of the JSON document
/// that the bytes `document` hold, as the crate `serde_json` reads it.
/// `None` where the bytes are no JSON document, or the document is no object
/// with a member `outer`, or that is no object with a member `inner`, or
/// that member is no text.
pub uninterp spec fn json_member_text(document: Seq<u8>, outer: Seq<char>, inner: Seq<char>)
    -> Option<Seq<char>>;

/// Full name of the repository that the delivery `body` is about: the text
/// at `repository.full_name` of the JSON document that `body` holds, and
/// `None` where that is not to be had.
pub open spec fn payload_repository(body: Seq<u8>) -> Option<Seq<char>> {
    json_member_text(body, "repository"@, "full_name"@)
}

/// Parses `document` with `serde_json::from_slice` into a
/// `serde_json::Value`, steps into the member `outer` and then into its
/// member `inner` with `Value::get`, and reads that as text with
/// `Value::as_str`. Believed of them: the outcome is a function of the bytes
/// and the two member names alone. A parse error, a missing member and a
/// member that is no text all come back as `None`.
#[verifier::external_body]
fn member_text(document: &[u8], outer: &str, inner: &str) -> (text: Option<String>)
    ensures
        text is Some == json_member_text(document@, outer@, inner@) is Some,
        text matches Some(found) ==> json_member_text(document@, outer@, inner@) == Some(found@),
{
    let value: serde_json::Value = match serde_json::from_slice(document) {
        Ok(value) => value,
        Err(_) => return None,
    };
    let text = value.get(outer)?.get(inner)?.as_str()?;
    Some(text.to_owned())
}

/// Reads the full name of the repository that a delivery is about out of its
/// body. A body that is no JSON document, or names no repository, gives
/// `None`.
pub fn repository_full_name(body: &[u8]) -> (name: Option<String>)
    ensures
        name is Some == payload_repository(body@) is Some,
        name matches Some(text) ==> payload_repository(body@) == Some(text@),
{
    member_text(body, "repository", "full_name")
}

} // verus!
