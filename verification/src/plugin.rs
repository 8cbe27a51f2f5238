//! The plugin itself: its validated configuration, the request bodies it
//! sends, and the pure core of a query, from the fetched availability window
//! to the finished descriptor list.

use vstd::prelude::*;
use vstd::string::StringExecFns;
use crate::HOUR_MS;
use crate::events::CompressedEvent;
use crate::events::assemble_events;
use crate::events::event_matches;
use crate::events::opt_view;
use crate::jsonval::json_quote;
use crate::jsonval::json_quoted;
use crate::reconcile::reconcile;
use crate::reconcile::spec_reconcile;
use crate::text::dec_int;
use crate::text::i64_to_string;
use crate::time::TimeRange;

verus! {

/// The validated configuration handed to the plugin at construction: the
/// shared secret and the base endpoint of the remote service.
pub struct ConfigData {
    pub password: String,
    pub url: String,
}

/// A location data-source plugin instance. The configuration is immutable
/// for its lifetime; whether descriptors carry a signature is selected here,
/// at construction, not per call.
pub struct Plugin {
    pub config: ConfigData,
    pub signing: bool,
}

/// The JSON body of the availability request: the `timespan` operation with
/// the secret as its only argument.
pub open spec fn spec_timespan_body(password: Seq<char>) -> Seq<char> {
    "{\"export\":\"timespan\",\"module\":\"public/locations.js\",\"arguments\":["@
        + json_quoted(password) + "]}"@
}

/// The JSON body of the signing request: the `signLocations` operation with
/// the secret and the requested range's bounds, in milliseconds, as
/// arguments. The range is the whole query's, not a bucket's.
pub open spec fn spec_signature_body(password: Seq<char>, start: int, end: int) -> Seq<char> {
    "{\"export\":\"signLocations\",\"module\":\"public/locations.js\",\"arguments\":["@
        + json_quoted(password) + ","@ + dec_int(start) + ","@ + dec_int(end) + "]}"@
}

impl Plugin {
    /// Builds a plugin around an already validated configuration, in signed
    /// or unsigned mode.
    pub fn new(config: ConfigData, signing: bool) -> (r: Plugin)
        ensures
            r.config.password@ == config.password@,
            r.config.url@ == config.url@,
            r.signing == signing,
    {
        Plugin { config, signing }
    }

    /// The body of the availability request.
    pub fn timespan_request_body(&self) -> (r: String)
        ensures
            r@ == spec_timespan_body(self.config.password@),
    {
        let mut s = String::from_str(
            "{\"export\":\"timespan\",\"module\":\"public/locations.js\",\"arguments\":[",
        );
        let quoted = json_quote(self.config.password.as_str());
        s.append(quoted.as_str());
        s.append("]}");
        s
    }

    /// The body of the signing request for the given query range.
    pub fn signature_request_body(&self, query_range: &TimeRange) -> (r: String)
        ensures
            r@ == spec_signature_body(
                self.config.password@,
                query_range.start as int,
                query_range.end as int,
            ),
    {
        let mut s = String::from_str(
            "{\"export\":\"signLocations\",\"module\":\"public/locations.js\",\"arguments\":[",
        );
        let quoted = json_quote(self.config.password.as_str());
        s.append(quoted.as_str());
        s.append(",");
        let start = i64_to_string(query_range.start);
        s.append(start.as_str());
        s.append(",");
        let end = i64_to_string(query_range.end);
        s.append(end.as_str());
        s.append("]}");
        s
    }

    /// The pure core of one query, after the transport calls are done:
    /// reconciles the requested range against the fetched availability
    /// window and wraps each kept bucket in a descriptor. In signed mode
    /// every descriptor carries the one query-scoped signature; in unsigned
    /// mode none does.
    pub fn get_compressed_events(
        &self,
        query_range: &TimeRange,
        availability: &TimeRange,
        signature: &Option<String>,
    ) -> (r: Vec<CompressedEvent>)
        requires
            query_range.wf(),
            query_range.end <= i64::MAX - HOUR_MS,
            self.signing <==> signature is Some,
        ensures
            ({
                let buckets = spec_reconcile(query_range.start, query_range.end, *availability);
                &&& r@.len() == buckets.len()
                &&& forall|i: int|
                    0 <= i < r@.len() ==> event_matches(
                        #[trigger] r@[i],
                        buckets[i],
                        self.config.url@,
                        opt_view(*signature),
                    )
            }),
    {
        let buckets = reconcile(query_range, availability);
        assemble_events(&buckets, &self.config.url, signature)
    }
}

} // verus!
