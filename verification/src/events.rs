//! Compressed event descriptors: the units handed to the downstream timeline
//! renderer, one per kept bucket, each bundling the bucket, the base
//! endpoint, and the optional query-scoped signature.

use vstd::prelude::*;
use vstd::string::StringExecFns;
use crate::time::TimeRange;

verus! {

/// When an event happened: at one instant or over a range, in milliseconds
/// since the Unix epoch.
#[derive(Clone, Copy, Debug, PartialEq, Eq, Structural)]
pub enum Timing {
    Instant(i64),
    Range(TimeRange),
}

/// The opaque payload a descriptor carries for the renderer: the bucket's
/// range, the configured base endpoint, and the signature when signing is
/// enabled.
pub struct EventPayload {
    pub range: TimeRange,
    pub url: String,
    pub signature: Option<String>,
}

/// One unit of output: a kept bucket, the fixed title, and the payload the
/// renderer consumes.
pub struct CompressedEvent {
    pub title: String,
    pub time: Timing,
    pub data: EventPayload,
}

/// The characters of an optional string.
pub open spec fn opt_view(o: Option<String>) -> Option<Seq<char>> {
    match o {
        Some(s) => Some(s@),
        None => None,
    }
}

/// What a descriptor must look like for a given bucket, base endpoint, and
/// query signature.
pub open spec fn event_matches(
    e: CompressedEvent,
    bucket: TimeRange,
    url: Seq<char>,
    sig: Option<Seq<char>>,
) -> bool {
    &&& e.title@ == "Locations"@
    &&& e.time == Timing::Range(bucket)
    &&& e.data.range == bucket
    &&& e.data.url@ == url
    &&& opt_view(e.data.signature) == sig
}

/// Builds one descriptor per kept bucket, in the buckets' order, all carrying
/// the same base endpoint and the same optional signature.
pub fn assemble_events(buckets: &Vec<TimeRange>, url: &String, signature: &Option<String>) -> (r:
    Vec<CompressedEvent>)
    ensures
        r@.len() == buckets@.len(),
        forall|i: int|
            0 <= i < r@.len() ==> event_matches(
                #[trigger] r@[i],
                buckets@[i],
                url@,
                opt_view(*signature),
            ),
{
    let mut out: Vec<CompressedEvent> = Vec::new();
    let mut i: usize = 0;
    while i < buckets.len()
        invariant
            i <= buckets@.len(),
            out@.len() == i,
            forall|k: int|
                0 <= k < i ==> event_matches(
                    #[trigger] out@[k],
                    buckets@[k],
                    url@,
                    opt_view(*signature),
                ),
        decreases buckets@.len() - i,
    {
        let b = buckets[i];
        let sig: Option<String> = match signature {
            Some(s) => Some(s.clone()),
            None => None,
        };
        out.push(
            CompressedEvent {
                title: String::from_str("Locations"),
                time: Timing::Range(b),
                data: EventPayload { range: b, url: url.clone(), signature: sig },
            },
        );
        i = i + 1;
    }
    out
}

/// In one query's result every descriptor carries the same signature: any two
/// descriptors of a list assembled for one query agree on it, and both carry
/// exactly the query's token.
pub proof fn lemma_uniform_signature(
    events: Seq<CompressedEvent>,
    buckets: Seq<TimeRange>,
    url: Seq<char>,
    sig: Option<Seq<char>>,
)
    requires
        events.len() == buckets.len(),
        forall|i: int| 0 <= i < events.len() ==> event_matches(#[trigger] events[i], buckets[i], url, sig),
    ensures
        forall|i: int| 0 <= i < events.len() ==> opt_view(#[trigger] events[i].data.signature) == sig,
        forall|i: int, j: int|
            0 <= i < events.len() && 0 <= j < events.len() ==> opt_view(
                #[trigger] events[i].data.signature,
            ) == opt_view(#[trigger] events[j].data.signature),
{
}

} // verus!
