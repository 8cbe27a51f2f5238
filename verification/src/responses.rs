//! Handling of the remote service's responses: one transport outcome comes
//! in as either the response text or a transport error message, and either a
//! validated value or the query-scoped error comes out. Success and failure
//! are pinned down exactly, over the named extractions of the two response
//! shapes.

use vstd::prelude::*;
use vstd::string::StringExecFns;
use crate::errors::ApiError;
use crate::errors::fetch_error;
use crate::errors::fetch_failure_message;
use crate::errors::sign_error;
use crate::errors::sign_failure_message;
use crate::jsonval::extract_signature_token;
use crate::jsonval::extract_timespan_fields;
use crate::jsonval::signature_token;
use crate::jsonval::timespan_fields;
use crate::time::TimeRange;
use crate::time::timestamp_millis_in_range;
use crate::time::timestamp_millis_representable;

verus! {

/// Whether the numeric fields of a timespan response form a usable
/// availability window: both fit a signed millisecond count, both denote
/// representable instants, and the window is not inverted.
pub open spec fn spec_window_valid(start: u64, end: u64) -> bool {
    &&& start <= i64::MAX as u64
    &&& end <= i64::MAX as u64
    &&& start <= end
    &&& timestamp_millis_in_range(start as i64)
    &&& timestamp_millis_in_range(end as i64)
}

/// The availability window a timespan response text yields, when it yields
/// one: its extracted fields, as a window, if they are usable.
pub open spec fn spec_timespan_window(text: Seq<char>) -> Option<TimeRange> {
    match timespan_fields(text) {
        Some(f) => if spec_window_valid(f.0, f.1) {
            Some(TimeRange { start: f.0 as i64, end: f.1 as i64 })
        } else {
            None
        },
        None => None,
    }
}

/// Converts the numeric fields of a timespan response into the availability
/// window, succeeding exactly when they form a usable window.
pub fn availability_from_fields(start: u64, end: u64) -> (r: Result<TimeRange, ApiError>)
    ensures
        r is Ok <==> spec_window_valid(start, end),
        r matches Ok(w) ==> w == (TimeRange { start: start as i64, end: end as i64 }),
        r matches Err(e) ==> e matches ApiError::FetchError(m) && m@ == fetch_failure_message(
            "Parse Error: invalid timespan"@,
        ),
{
    if start > i64::MAX as u64 || end > i64::MAX as u64 {
        return Err(fetch_error("Parse Error: invalid timespan"));
    }
    let s = start as i64;
    let e = end as i64;
    if s > e || !timestamp_millis_representable(s) || !timestamp_millis_representable(e) {
        return Err(fetch_error("Parse Error: invalid timespan"));
    }
    Ok(TimeRange { start: s, end: e })
}

/// Parses the text of a timespan response, `{"data": {"start": _, "end": _}}`
/// with unknown extra fields ignored, and validates the window it reports:
/// `Ok` exactly when the fields are there and usable, and then exactly the
/// reported window; otherwise a `FetchError` naming the operation and the
/// parse cause.
pub fn parse_timespan_response(text: &str) -> (r: Result<TimeRange, ApiError>)
    ensures
        r is Ok <==> spec_timespan_window(text@) is Some,
        r matches Ok(w) ==> spec_timespan_window(text@) == Some(w) && w.wf()
            && timestamp_millis_in_range(w.start) && timestamp_millis_in_range(w.end),
        r matches Err(e) ==> e matches ApiError::FetchError(m) && m@ == fetch_failure_message(
            "Parse Error: invalid timespan"@,
        ),
{
    match extract_timespan_fields(text) {
        Some((start, end)) => availability_from_fields(start, end),
        None => Err(fetch_error("Parse Error: invalid timespan")),
    }
}

/// Turns the outcome of the availability transport call into the
/// availability window: a transport error fails the query as a `FetchError`
/// wrapping the cause; a response is parsed and validated, succeeding
/// exactly when it reports a usable window.
pub fn handle_availability(outcome: Result<String, String>) -> (r: Result<TimeRange, ApiError>)
    ensures
        r matches Ok(w) ==> w.wf() && timestamp_millis_in_range(w.start)
            && timestamp_millis_in_range(w.end),
        r matches Err(e) ==> e matches ApiError::FetchError(_),
        outcome matches Err(cause) ==> r matches Err(e) && e.message_view()
            == fetch_failure_message("Request Error: "@ + cause@),
        outcome matches Ok(text) ==> (r is Ok <==> spec_timespan_window(text@) is Some),
        outcome matches Ok(text) ==> (r matches Ok(w) ==> spec_timespan_window(text@) == Some(
            w,
        )),
        outcome matches Ok(text) ==> (r matches Err(e) ==> e.message_view()
            == fetch_failure_message("Parse Error: invalid timespan"@)),
{
    match outcome {
        Ok(text) => parse_timespan_response(text.as_str()),
        Err(cause) => {
            let mut c = String::from_str("Request Error: ");
            c.append(cause.as_str());
            Err(fetch_error(c.as_str()))
        },
    }
}

/// Parses the text of a signing response, `{"data": "<token>"}` with unknown
/// extra fields ignored: `Ok` exactly when the string `data` field is there,
/// and then exactly that token, unaltered; otherwise a `SignError` naming
/// the operation and the parse cause.
pub fn parse_signature_response(text: &str) -> (r: Result<String, ApiError>)
    ensures
        r is Ok <==> signature_token(text@) is Some,
        r matches Ok(t) ==> signature_token(text@) matches Some(v) && t@ == v,
        r matches Err(e) ==> e matches ApiError::SignError(m) && m@ == sign_failure_message(
            "Parse Error: invalid signature response"@,
        ),
{
    match extract_signature_token(text) {
        Some(t) => Ok(t),
        None => Err(sign_error("Parse Error: invalid signature response")),
    }
}

/// Turns the outcome of the signing transport call into the signature token:
/// a transport error fails the query as a `SignError` wrapping the cause; a
/// response yields exactly its string `data` field, or a `SignError` when it
/// lacks one. There is no partial signing: an `Err` here aborts the whole
/// query.
pub fn handle_signature(outcome: Result<String, String>) -> (r: Result<String, ApiError>)
    ensures
        r matches Err(e) ==> e matches ApiError::SignError(_),
        outcome matches Err(cause) ==> r matches Err(e) && e.message_view()
            == sign_failure_message("Request Error: "@ + cause@),
        outcome matches Ok(text) ==> (r is Ok <==> signature_token(text@) is Some),
        outcome matches Ok(text) ==> (r matches Ok(t) ==> signature_token(text@) matches Some(v)
            && t@ == v),
        outcome matches Ok(text) ==> (r matches Err(e) ==> e.message_view()
            == sign_failure_message("Parse Error: invalid signature response"@)),
{
    match outcome {
        Ok(text) => parse_signature_response(text.as_str()),
        Err(cause) => {
            let mut c = String::from_str("Request Error: ");
            c.append(cause.as_str());
            Err(sign_error(c.as_str()))
        },
    }
}

} // verus!
