//! Trusted surface over serde_json: extracting the consumed fields of the
//! two response shapes, and quoting a string for a request body. Each
//! extraction is a pure function of the response text, named so that the
//! verified response handlers can state exactly when they succeed and what
//! they return.

use vstd::prelude::*;

verus! {

/// The `data.start` and `data.end` numbers of a timespan response: `Some`
/// exactly when the text is a JSON document carrying both as unsigned
/// integers (unknown extra fields ignored), `None` otherwise.
pub uninterp spec fn timespan_fields(s: Seq<char>) -> Option<(u64, u64)>;

/// The string `data` field of a signing response: `Some` of its characters
/// exactly when the text is a JSON document carrying it (unknown extra
/// fields ignored), `None` otherwise.
pub uninterp spec fn signature_token(s: Seq<char>) -> Option<Seq<char>>;

/// The JSON string literal that quotes the given characters, quotes and
/// escapes included.
pub uninterp spec fn json_quoted(s: Seq<char>) -> Seq<char>;

/// Relies on serde_json::from_str and Value's get/as_u64: the numeric
/// `data.start` and `data.end` fields of the document, a function of the
/// text alone.
#[verifier::external_body]
pub fn extract_timespan_fields(s: &str) -> (r: Option<(u64, u64)>)
    ensures
        r == timespan_fields(s@),
{
    let v: serde_json::Value = serde_json::from_str(s).ok()?;
    let data = v.get("data")?;
    Some((data.get("start")?.as_u64()?, data.get("end")?.as_u64()?))
}

/// Relies on serde_json::from_str and Value's get/as_str: the string `data`
/// field of the document, a function of the text alone.
#[verifier::external_body]
pub fn extract_signature_token(s: &str) -> (r: Option<String>)
    ensures
        r is Some <==> signature_token(s@) is Some,
        r matches Some(t) ==> signature_token(s@) matches Some(v) && t@ == v,
{
    let v: serde_json::Value = serde_json::from_str(s).ok()?;
    Some(v.get("data")?.as_str()?.to_owned())
}

/// Relies on serde_json::to_string on a string slice, which cannot fail:
/// emits the JSON string literal for it.
#[verifier::external_body]
pub fn json_quote(s: &str) -> (r: String)
    ensures
        r@ == json_quoted(s@),
{
    serde_json::to_string(s).unwrap()
}

} // verus!
