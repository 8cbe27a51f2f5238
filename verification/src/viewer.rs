//! The viewer link a descriptor turns into: the renderer sets a fixed embed
//! path on the base endpoint and a query string carrying the bucket's bounds
//! and, when present, the URL-encoded signature.

use vstd::prelude::*;
use vstd::string::StringExecFns;
use vstd::string::StringSliceAdditionalSpecFns;
use vstd::utf8::encode_utf8;
use crate::text::dec_int;
use crate::text::i64_to_string;
use crate::time::TimeRange;
use crate::urlenc::encode_url_component;
use crate::urlenc::spec_encode_component;

verus! {

/// The fixed path of the embedded viewer.
pub const OBSERVE_PATH: &'static str = "/observe/";

/// The characters of an optional string slice.
pub open spec fn opt_str_view(o: Option<&str>) -> Option<Seq<char>> {
    match o {
        Some(s) => Some(s@),
        None => None,
    }
}

/// The query string of a viewer link for one bucket: the welcome screen
/// skipped, the bucket's bounds in milliseconds, and, when signing is
/// enabled, the URL-encoded signature.
pub open spec fn spec_viewer_query(range: TimeRange, sig: Option<Seq<char>>) -> Seq<char> {
    let base = "skipWelcome=true&start="@ + dec_int(range.start as int) + "&end="@ + dec_int(
        range.end as int,
    );
    match sig {
        Some(s) => base + "&signature="@ + spec_encode_component(encode_utf8(s)),
        None => base,
    }
}

/// Builds the viewer query string for one bucket and its optional signature.
pub fn viewer_query(range: &TimeRange, signature: Option<&str>) -> (r: String)
    ensures
        r@ == spec_viewer_query(*range, opt_str_view(signature)),
{
    let mut s = String::from_str("skipWelcome=true&start=");
    let start = i64_to_string(range.start);
    s.append(start.as_str());
    s.append("&end=");
    let end = i64_to_string(range.end);
    s.append(end.as_str());
    match signature {
        Some(sig) => {
            s.append("&signature=");
            let enc = encode_url_component(sig);
            s.append(enc.as_str());
            proof {
                assert(sig.spec_bytes() == encode_utf8(sig@));
            }
        },
        None => {},
    }
    s
}

} // verus!
