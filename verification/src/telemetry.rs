//! The telemetry side of the middleware: reporting metadata, telemetry
//! events, the sink's suppression filter, and a sink that records what was
//! offered and what was persisted.
//!
//! The filter implements the service's reporting policy: an event whose
//! attached `status_code` lies in `[400, 500)` is a client fault and is
//! dropped silently; every other event is persisted.

use vstd::prelude::*;

verus! {

/// A key under which the middleware attaches reporting metadata to an event.
///
/// The set is closed: it models exactly the keys the interception layer
/// writes and the sink's filter reads.
#[derive(Clone, Copy, Debug, PartialEq, Eq, Structural)]
pub enum MetadataKey {
    /// The resolved HTTP status code of a classified failure.
    StatusCode,
}

/// One key/value pair of reporting metadata.
#[derive(Clone, Copy, Debug, PartialEq, Eq, Structural)]
pub struct MetadataEntry {
    pub key: MetadataKey,
    pub value: u64,
}

/// A failure event offered to the telemetry sink.
///
/// The metadata travels inside the event value itself, so each offer carries
/// its own request-scoped attachment: nothing is stashed in shared mutable
/// state between attachment and the filter's read.
#[derive(Debug)]
pub struct TelemetryEvent {
    /// The human-readable description of the failure.
    pub message: String,
    /// The metadata attached for the sink's filter, `status_code` included.
    pub extra: Vec<MetadataEntry>,
}

/// Whether two events carry the same message and the same metadata.
pub open spec fn spec_same_event(a: TelemetryEvent, b: TelemetryEvent) -> bool {
    a.message@ == b.message@ && a.extra@ == b.extra@
}

/// Copies a metadata vector entry for entry.
pub fn copy_entries(entries: &Vec<MetadataEntry>) -> (r: Vec<MetadataEntry>)
    ensures
        r@ == entries@,
{
    let mut r: Vec<MetadataEntry> = Vec::new();
    let mut i: usize = 0;
    while i < entries.len()
        invariant
            0 <= i <= entries@.len(),
            r@ == entries@.subrange(0, i as int),
        decreases entries@.len() - i,
    {
        r.push(entries[i]);
        i = i + 1;
    }
    proof {
        assert(r@ =~= entries@);
    }
    r
}

impl Clone for TelemetryEvent {
    /// The clone carries the same message and metadata as the source value.
    fn clone(&self) -> (r: Self)
        ensures
            spec_same_event(r, *self),
    {
        TelemetryEvent { message: self.message.clone(), extra: copy_entries(&self.extra) }
    }
}

/// The value attached under [`MetadataKey::StatusCode`], if any: the first
/// entry with that key wins.
pub open spec fn spec_status_of(extra: Seq<MetadataEntry>) -> Option<u64>
    decreases extra.len(),
{
    if extra.len() == 0 {
        None
    } else if extra[0].key == MetadataKey::StatusCode {
        Some(extra[0].value)
    } else {
        spec_status_of(extra.drop_first())
    }
}

/// Whether the sink's filter lets an event through: drop it exactly when its
/// attached `status_code` lies in `[400, 500)`; an event without one passes.
pub open spec fn spec_event_accepted(event: TelemetryEvent) -> bool {
    match spec_status_of(event.extra@) {
        Some(v) => !(400 <= v < 500),
        None => true,
    }
}

/// Skipping entries whose key is not `StatusCode` does not change which
/// attached value the filter sees.
proof fn lemma_status_of_skip(extra: Seq<MetadataEntry>, i: int)
    requires
        0 <= i <= extra.len(),
        forall|j: int| 0 <= j < i ==> extra[j].key != MetadataKey::StatusCode,
    ensures
        spec_status_of(extra) == spec_status_of(extra.skip(i)),
    decreases i,
{
    if i > 0 {
        assert(extra.drop_first().skip(i - 1) =~= extra.skip(i));
        lemma_status_of_skip(extra.drop_first(), i - 1);
    }
}

/// Reads the `status_code` attached to an event, as the sink's filter does.
pub fn status_of(extra: &Vec<MetadataEntry>) -> (r: Option<u64>)
    ensures
        r == spec_status_of(extra@),
{
    let mut i: usize = 0;
    while i < extra.len()
        invariant
            0 <= i <= extra@.len(),
            forall|j: int| 0 <= j < i ==> extra@[j].key != MetadataKey::StatusCode,
        decreases extra@.len() - i,
    {
        if extra[i].key == MetadataKey::StatusCode {
            proof {
                lemma_status_of_skip(extra@, i as int);
            }
            return Some(extra[i].value);
        }
        i = i + 1;
    }
    proof {
        lemma_status_of_skip(extra@, i as int);
    }
    None
}

/// The sink's suppression filter, applied to each offered event before it is
/// persisted.
pub fn event_accepted(event: &TelemetryEvent) -> (r: bool)
    ensures
        r == spec_event_accepted(*event),
{
    match status_of(&event.extra) {
        Some(v) => !(400 <= v && v < 500),
        None => true,
    }
}

/// A telemetry sink that records every offer and persists the accepted ones.
///
/// It stands for the external error-tracking service: `offered` is what the
/// interception layer handed over, `persisted` is what survived the filter.
/// Dropping is terminal and silent; nothing is retried.
pub struct TelemetrySink {
    /// Every event ever offered, in order.
    pub offered: Vec<TelemetryEvent>,
    /// The offered events the filter accepted, in order.
    pub persisted: Vec<TelemetryEvent>,
}

impl TelemetrySink {
    /// Creates a sink that has seen nothing yet.
    pub fn new() -> (r: TelemetrySink)
        ensures
            r.offered@ == Seq::<TelemetryEvent>::empty(),
            r.persisted@ == Seq::<TelemetryEvent>::empty(),
    {
        TelemetrySink { offered: Vec::new(), persisted: Vec::new() }
    }

    /// Offers one event: the filter decides, and a dropped event leaves no
    /// trace in `persisted`.
    pub fn offer(&mut self, event: TelemetryEvent) -> (accepted: bool)
        ensures
            accepted == spec_event_accepted(event),
            final(self).offered@ == old(self).offered@.push(event),
            accepted ==> final(self).persisted@.len() == old(self).persisted@.len() + 1
                && final(self).persisted@.drop_last() == old(self).persisted@
                && spec_same_event(final(self).persisted@.last(), event),
            !accepted ==> final(self).persisted@ == old(self).persisted@,
    {
        let accepted = event_accepted(&event);
        if accepted {
            self.persisted.push(event.clone());
            proof {
                assert(self.persisted@.drop_last() =~= old(self).persisted@);
            }
        }
        self.offered.push(event);
        accepted
    }
}

} // verus!
