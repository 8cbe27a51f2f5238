use timeline_plugin_location::plugin::ConfigData;
use timeline_plugin_location::plugin::Plugin;
use timeline_plugin_location::events::Timing;
use timeline_plugin_location::reconcile::reconcile;
use timeline_plugin_location::time::TimeRange;

const HOUR: i64 = 3_600_000;
const T0: i64 = 1_700_000_000_000;

fn plugin(signing: bool) -> Plugin {
    Plugin::new(
        ConfigData {
            password: String::from("secret"),
            url: String::from("https://example.com/"),
        },
        signing,
    )
}

#[test]
fn example_partial_overlap() {
    // R = [t0, t0+3h), A = [t0+1h, t0+10h): three buckets are generated,
    // only the last two start inside A.
    let requested = TimeRange::new(T0, T0 + 3 * HOUR);
    let availability = TimeRange::new(T0 + HOUR, T0 + 10 * HOUR);
    let buckets = reconcile(&requested, &availability);
    assert_eq!(
        buckets,
        vec![
            TimeRange::new(T0 + HOUR, T0 + 2 * HOUR),
            TimeRange::new(T0 + 2 * HOUR, T0 + 3 * HOUR),
        ]
    );

    let p = plugin(true);
    let events = p.get_compressed_events(
        &requested,
        &availability,
        &Some(String::from("tok")),
    );
    assert_eq!(events.len(), 2);
    assert_eq!(events[0].data.range, TimeRange::new(T0 + HOUR, T0 + 2 * HOUR));
    assert_eq!(events[1].data.range, TimeRange::new(T0 + 2 * HOUR, T0 + 3 * HOUR));
    assert!(events[0].data.range.start < events[1].data.range.start);
}

#[test]
fn empty_range_yields_nothing() {
    let requested = TimeRange::new(T0, T0);
    let availability = TimeRange::new(T0 - 10 * HOUR, T0 + 10 * HOUR);
    let buckets = reconcile(&requested, &availability);
    assert!(buckets.is_empty());
}

#[test]
fn full_containment_keeps_every_bucket() {
    // A contains R: every generated bucket is kept, contiguous on the hour
    // grid anchored at R.start.
    let requested = TimeRange::new(T0, T0 + 5 * HOUR / 2);
    let availability = TimeRange::new(T0 - HOUR, T0 + 10 * HOUR);
    let buckets = reconcile(&requested, &availability);
    assert_eq!(buckets.len(), 3);
    for (i, b) in buckets.iter().enumerate() {
        assert_eq!(b.start, T0 + (i as i64) * HOUR);
        assert_eq!(b.end, b.start + HOUR);
    }
    // The final bucket overshoots R.end: coverage is anchored to starts.
    assert!(buckets[2].end > requested.end);
}

#[test]
fn disjoint_window_yields_nothing() {
    let requested = TimeRange::new(T0, T0 + 3 * HOUR);
    let before = TimeRange::new(T0 - 10 * HOUR, T0 - 5 * HOUR);
    let after = TimeRange::new(T0 + 3 * HOUR, T0 + 10 * HOUR);
    assert!(reconcile(&requested, &before).is_empty());
    assert!(reconcile(&requested, &after).is_empty());
}

#[test]
fn pre_epoch_ranges_reconcile_too() {
    let requested = TimeRange::new(-10 * HOUR, -8 * HOUR);
    let availability = TimeRange::new(-9 * HOUR, HOUR);
    let buckets = reconcile(&requested, &availability);
    assert_eq!(buckets, vec![TimeRange::new(-9 * HOUR, -8 * HOUR)]);
}

#[test]
fn inclusion_is_half_open() {
    let r = TimeRange::new(T0, T0 + HOUR);
    assert!(r.includes(T0));
    assert!(r.includes(T0 + HOUR - 1));
    assert!(!r.includes(T0 + HOUR));
    assert!(!r.includes(T0 - 1));
}

#[test]
fn unsigned_mode_emits_unsigned_descriptors() {
    let requested = TimeRange::new(T0, T0 + 2 * HOUR);
    let availability = TimeRange::new(T0, T0 + 2 * HOUR);
    let p = plugin(false);
    let events = p.get_compressed_events(&requested, &availability, &None);
    assert_eq!(events.len(), 2);
    for e in &events {
        assert_eq!(e.title, "Locations");
        assert_eq!(e.data.signature, None);
        assert_eq!(e.data.url, "https://example.com/");
    }
}

#[test]
fn signed_mode_attaches_one_token_everywhere() {
    let requested = TimeRange::new(T0, T0 + 4 * HOUR);
    let availability = TimeRange::new(T0 - HOUR, T0 + 40 * HOUR);
    let p = plugin(true);
    let events = p.get_compressed_events(
        &requested,
        &availability,
        &Some(String::from("token-abc")),
    );
    assert_eq!(events.len(), 4);
    for e in &events {
        assert_eq!(e.data.signature.as_deref(), Some("token-abc"));
        assert_eq!(e.time, Timing::Range(e.data.range));
        assert_eq!(e.title, "Locations");
    }
}
