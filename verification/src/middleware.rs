//! The request interception layer: wraps one request-handling invocation,
//! inspects its outcome, logs it, and for handled failures classifies the
//! cause and offers the classified error to the telemetry sink.
//!
//! Each call is independent: the metadata that drives the sink's filter
//! travels inside the offered event, so nothing one request attaches can be
//! read by another.

use vstd::prelude::*;

use crate::classified::ClassifiedError;
use crate::errors::{spec_description, spec_severity, spec_status, ErrorKind, Severity};
use crate::telemetry::{
    spec_event_accepted, spec_status_of, TelemetryEvent, TelemetrySink,
};

verus! {

/// The severity of a log emission. The handlers log their ordinary work at
/// `Info`; the interception layer itself logs only at `Error`.
#[derive(Clone, Copy, Debug, PartialEq, Eq, Structural)]
pub enum LogLevel {
    Info,
    Error,
}

/// Whether a log emission at `level` is forwarded to the telemetry layer:
/// only error-level emissions are; everything quieter is ignored.
pub fn forward_to_telemetry(level: LogLevel) -> (r: bool)
    ensures
        r == (level == LogLevel::Error),
{
    match level {
        LogLevel::Error => true,
        LogLevel::Info => false,
    }
}

/// One structured log emission: a severity, the path of the request it
/// belongs to, and a message.
#[derive(Debug)]
pub struct LogEntry {
    pub level: LogLevel,
    pub path: String,
    pub message: String,
}

/// The HTTP response handed back to the caller: a status line and a textual
/// body, plus the error indicator a response may carry even though the inner
/// layer produced it as a success.
#[derive(Debug)]
pub struct HttpResponse {
    pub status_code: u16,
    pub body: String,
    /// Present when the inner layer built this response for a failure it
    /// already turned into a response itself.
    pub embedded_error: Option<String>,
}

/// A transport-level failure whose shape the interception layer does not
/// know: it is observed and propagated, never classified.
#[derive(Debug)]
pub struct TransportError {
    pub message: String,
}

/// What one invocation of the wrapped inner handler came back with.
#[derive(Debug)]
pub enum Outcome {
    /// The inner layer produced a response.
    Success(HttpResponse),
    /// The inner layer failed with a typed cause the classifier knows.
    HandledFailure(ErrorKind),
    /// The framework failed in a way the classifier cannot know.
    UnhandledFailure(TransportError),
}

/// What the interceptor hands back to the outer layer: either a concrete
/// response, or the unhandled failure, untouched.
#[derive(Debug)]
pub enum Disposition {
    Responded(HttpResponse),
    Propagated(TransportError),
}

/// The observable result of intercepting one request: the disposition and
/// the log emission, if the outcome called for one.
#[derive(Debug)]
pub struct InterceptResult {
    pub disposition: Disposition,
    pub log: Option<LogEntry>,
}

/// Whether `entry` is an error-level log emission for `path` with message
/// `message`.
pub open spec fn spec_error_log(entry: LogEntry, path: Seq<char>, message: Seq<char>) -> bool {
    &&& entry.level == LogLevel::Error
    &&& entry.path@ == path
    &&& entry.message@ == message
}

/// Whether `ev` is the telemetry event of a classified failure with cause
/// `kind`: its message describes the cause and its attached `status_code` is
/// the one the classifier assigned.
pub open spec fn spec_event_for(ev: TelemetryEvent, kind: ErrorKind) -> bool {
    &&& ev.message@ == spec_description(kind)
    &&& spec_status_of(ev.extra@) == Some(spec_status(kind) as u64)
}

/// The factory that wraps an inner service with the interception layer.
pub struct Middleware;

impl Middleware {
    /// Wraps the inner service: yields the interceptor that will see every
    /// request outcome.
    pub fn new_transform(&self) -> (r: MiddlewareService) {
        MiddlewareService {}
    }
}

/// The interceptor for one wrapped service. It holds no state of its own:
/// everything a request attaches travels in that request's own values.
pub struct MiddlewareService {}

impl MiddlewareService {
    /// Intercepts the outcome of one request.
    ///
    /// On success the response passes through unchanged and the sink is not
    /// touched; a response that carries an embedded error is logged first.
    /// A handled failure is classified, offered to the sink exactly once
    /// with its status code attached, logged, and turned into an error
    /// response. An unhandled failure is logged and propagated untouched.
    pub fn call(&self, path: &str, outcome: Outcome, sink: &mut TelemetrySink) -> (r:
        InterceptResult)
        ensures
            (outcome matches Outcome::Success(resp) ==> {
                &&& r.disposition == Disposition::Responded(resp)
                &&& final(sink).offered@ == old(sink).offered@
                &&& final(sink).persisted@ == old(sink).persisted@
                &&& (resp.embedded_error matches Some(e) ==> r.log matches Some(entry)
                    && spec_error_log(entry, path@, e@))
                &&& (resp.embedded_error is None ==> r.log is None)
            }),
            (outcome matches Outcome::HandledFailure(kind) ==> {
                &&& (r.disposition matches Disposition::Responded(resp)
                    && resp.status_code == spec_status(kind)
                    && resp.body@ == spec_description(kind)
                    && resp.embedded_error is None)
                &&& (r.log matches Some(entry)
                    && spec_error_log(entry, path@, spec_description(kind)))
                &&& final(sink).offered@.len() == old(sink).offered@.len() + 1
                &&& final(sink).offered@.drop_last() == old(sink).offered@
                &&& spec_event_for(final(sink).offered@.last(), kind)
                &&& (400 <= spec_status(kind) < 500 ==> final(sink).persisted@ == old(
                    sink,
                ).persisted@)
                &&& (spec_status(kind) >= 500 ==> final(sink).persisted@.len() == old(
                    sink,
                ).persisted@.len() + 1 && final(sink).persisted@.drop_last() == old(
                    sink,
                ).persisted@ && spec_event_for(final(sink).persisted@.last(), kind))
            }),
            (outcome matches Outcome::UnhandledFailure(err) ==> {
                &&& r.disposition == Disposition::Propagated(err)
                &&& (r.log matches Some(entry)
                    && spec_error_log(entry, path@, "Unhandled server error"@))
                &&& final(sink).offered@ == old(sink).offered@
                &&& final(sink).persisted@ == old(sink).persisted@
            }),
    {
        match outcome {
            Outcome::Success(resp) => {
                let log = match &resp.embedded_error {
                    Some(e) => Some(
                        LogEntry {
                            level: LogLevel::Error,
                            path: path.to_string(),
                            message: e.clone(),
                        },
                    ),
                    None => None,
                };
                InterceptResult { disposition: Disposition::Responded(resp), log }
            },
            Outcome::HandledFailure(kind) => {
                let classified = ClassifiedError::from_kind(kind);
                let event = classified.to_event();
                let _accepted = sink.offer(event);
                let log = Some(
                    LogEntry {
                        level: LogLevel::Error,
                        path: path.to_string(),
                        message: classified.description(),
                    },
                );
                let response = HttpResponse {
                    status_code: classified.status_code,
                    body: classified.description(),
                    embedded_error: None,
                };
                InterceptResult { disposition: Disposition::Responded(response), log }
            },
            Outcome::UnhandledFailure(err) => {
                let log = Some(
                    LogEntry {
                        level: LogLevel::Error,
                        path: path.to_string(),
                        message: "Unhandled server error".to_string(),
                    },
                );
                InterceptResult { disposition: Disposition::Propagated(err), log }
            },
        }
    }
}

/// How many telemetry offers one outcome causes: one for a handled failure,
/// none for anything else.
pub open spec fn spec_offer_delta(oc: Outcome) -> nat {
    if oc is HandledFailure {
        1nat
    } else {
        0nat
    }
}

/// How many telemetry events one outcome persists: one for a handled
/// failure the classifier deems a server fault, none for anything else.
pub open spec fn spec_persist_delta(oc: Outcome) -> nat {
    match oc {
        Outcome::HandledFailure(kind) => if spec_status(kind) >= 500 {
            1nat
        } else {
            0nat
        },
        _ => 0nat,
    }
}

/// How many outcomes of a batch are handled failures; each of those causes
/// exactly one telemetry offer, and no other outcome causes any.
pub open spec fn spec_count_offers(s: Seq<Outcome>) -> nat
    decreases s.len(),
{
    if s.len() == 0 {
        0
    } else {
        spec_count_offers(s.drop_last()) + spec_offer_delta(s.last())
    }
}

/// How many outcomes of a batch are handled failures the classifier deems
/// server faults; each of those persists exactly one event, and no other
/// outcome persists any.
pub open spec fn spec_count_persisted(s: Seq<Outcome>) -> nat
    decreases s.len(),
{
    if s.len() == 0 {
        0
    } else {
        spec_count_persisted(s.drop_last()) + spec_persist_delta(s.last())
    }
}

/// Removing one outcome from a batch takes exactly that outcome's own
/// contribution out of both counts, wherever in the batch it stood.
proof fn lemma_count_remove(s: Seq<Outcome>, j: int)
    requires
        0 <= j < s.len(),
    ensures
        spec_count_offers(s) == spec_count_offers(s.remove(j)) + spec_offer_delta(s[j]),
        spec_count_persisted(s) == spec_count_persisted(s.remove(j)) + spec_persist_delta(s[j]),
    decreases s.len(),
{
    if j == s.len() - 1 {
        assert(s.remove(j) =~= s.drop_last());
    } else {
        lemma_count_remove(s.drop_last(), j);
        assert(s.remove(j).drop_last() =~= s.drop_last().remove(j));
        assert(s.remove(j).last() == s.last());
    }
}

/// The telemetry counts of a batch depend only on which outcomes it holds,
/// never on their order: two interleavings of the same mix of requests make
/// the same number of offers and persist the same number of events.
pub proof fn lemma_counts_order_independent(s1: Seq<Outcome>, s2: Seq<Outcome>)
    requires
        s1.to_multiset() == s2.to_multiset(),
    ensures
        spec_count_offers(s1) == spec_count_offers(s2),
        spec_count_persisted(s1) == spec_count_persisted(s2),
    decreases s1.len(),
{
    broadcast use vstd::seq_lib::group_to_multiset_ensures;

    if s1.len() == 0 {
        assert(s2.to_multiset().len() == 0);
    } else {
        let x = s1.last();
        let i = s1.len() - 1;
        assert(s1.contains(x));
        assert(s2.to_multiset().count(x) > 0);
        assert(s2.contains(x));
        let j = choose|j: int| 0 <= j < s2.len() && s2[j] == x;
        lemma_count_remove(s1, i as int);
        lemma_count_remove(s2, j);
        assert(s1.remove(i as int) =~= s1.drop_last());
        assert(s1.remove(i as int).to_multiset() =~= s2.remove(j).to_multiset());
        lemma_counts_order_independent(s1.remove(i as int), s2.remove(j));
    }
}

/// Whether `r` is the disposition the interceptor owes for outcome `oc`:
/// a success passes through unchanged, a handled failure becomes the error
/// response its classification dictates, an unhandled failure is propagated
/// untouched.
pub open spec fn spec_disposition_for(r: InterceptResult, oc: Outcome) -> bool {
    match oc {
        Outcome::Success(resp) => r.disposition == Disposition::Responded(resp),
        Outcome::HandledFailure(kind) => r.disposition matches Disposition::Responded(resp)
            && resp.status_code == spec_status(kind) && resp.body@ == spec_description(kind),
        Outcome::UnhandledFailure(err) => r.disposition == Disposition::Propagated(err),
    }
}

/// Whether `r` carries the log emission the interceptor owes for outcome
/// `oc` on a request to `path`: every failure is logged at error severity
/// with the path, a clean success is not logged at all.
pub open spec fn spec_log_for(r: InterceptResult, oc: Outcome, path: Seq<char>) -> bool {
    match oc {
        Outcome::Success(resp) => match resp.embedded_error {
            Some(e) => r.log matches Some(entry) && spec_error_log(entry, path, e@),
            None => r.log is None,
        },
        Outcome::HandledFailure(kind) => r.log matches Some(entry) && spec_error_log(
            entry,
            path,
            spec_description(kind),
        ),
        Outcome::UnhandledFailure(_) => r.log matches Some(entry) && spec_error_log(
            entry,
            path,
            "Unhandled server error"@,
        ),
    }
}

impl MiddlewareService {
    /// Intercepts a whole batch of independent request outcomes, in order.
    ///
    /// The counts depend only on how many outcomes of each class the batch
    /// holds, never on their interleaving: client-fault failures never add
    /// to the persisted events, however many requests run beside them.
    pub fn process_batch(&self, path: &str, outcomes: Vec<Outcome>, sink: &mut TelemetrySink) -> (rs:
        Vec<InterceptResult>)
        ensures
            rs@.len() == outcomes@.len(),
            forall|j: int|
                0 <= j < rs@.len() ==> spec_disposition_for(#[trigger] rs@[j], outcomes@[j]),
            forall|j: int|
                0 <= j < rs@.len() ==> spec_log_for(#[trigger] rs@[j], outcomes@[j], path@),
            final(sink).offered@.len() == old(sink).offered@.len() + spec_count_offers(outcomes@),
            final(sink).persisted@.len() == old(sink).persisted@.len() + spec_count_persisted(
                outcomes@,
            ),
    {
        let ghost all = outcomes@;
        let mut remaining = outcomes;
        let mut rs: Vec<InterceptResult> = Vec::new();
        while remaining.len() > 0
            invariant
                rs@.len() + remaining@.len() == all.len(),
                remaining@ == all.skip(rs@.len() as int),
                sink.offered@.len() == old(sink).offered@.len() + spec_count_offers(
                    all.take(rs@.len() as int),
                ),
                sink.persisted@.len() == old(sink).persisted@.len() + spec_count_persisted(
                    all.take(rs@.len() as int),
                ),
                forall|j: int|
                    0 <= j < rs@.len() ==> spec_disposition_for(#[trigger] rs@[j], all[j]),
                forall|j: int|
                    0 <= j < rs@.len() ==> spec_log_for(#[trigger] rs@[j], all[j], path@),
            decreases remaining@.len(),
        {
            let ghost i = rs@.len() as int;
            proof {
                assert(remaining@[0] == all[i]);
            }
            let oc = remaining.remove(0);
            let r = self.call(path, oc, sink);
            proof {
                assert(all.take(i + 1).drop_last() =~= all.take(i));
                assert(all.take(i + 1).last() == all[i]);
                assert(remaining@ =~= all.skip(i + 1));
            }
            rs.push(r);
        }
        proof {
            assert(all.take(all.len() as int) =~= all);
        }
        rs
    }
}

/// An event that carries the status code the classifier assigned to its
/// cause passes the sink's filter exactly when the classifier deemed the
/// cause a server fault: client faults are suppressed, server faults are
/// persisted.
pub proof fn lemma_acceptance_matches_severity(ev: TelemetryEvent, kind: ErrorKind)
    requires
        spec_event_for(ev, kind),
    ensures
        spec_event_accepted(ev) <==> spec_severity(kind) == Severity::ServerFault,
{
}

} // verus!
