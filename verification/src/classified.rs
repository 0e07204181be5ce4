//! A failure cause at the moment it crosses into the HTTP layer: paired with
//! its resolved status code and the reporting metadata the telemetry sink's
//! filter will read.

use vstd::prelude::*;

use crate::errors::{spec_description, spec_status, ErrorKind};
use crate::telemetry::{copy_entries, MetadataEntry, MetadataKey, TelemetryEvent};
use crate::telemetry::spec_status_of;

verus! {

/// A failure cause together with its resolved HTTP status code and the
/// metadata attached for reporting.
///
/// Created exactly once, where an [`ErrorKind`] first reaches the HTTP
/// layer; never mutated afterwards, and discarded once the response is out.
#[derive(Debug)]
pub struct ClassifiedError {
    /// The HTTP status code resolved by the classifier; always in
    /// `[400, 599]`.
    pub status_code: u16,
    /// The failure cause that was classified.
    pub cause: ErrorKind,
    /// The metadata handed to the telemetry sink; carries the status code.
    pub reporting_metadata: Vec<MetadataEntry>,
}

impl ClassifiedError {
    /// A classified error is well-formed when its status code is the one the
    /// classification table assigns to its cause, lies in the error range,
    /// and is the value its reporting metadata carries.
    pub open spec fn wf(self) -> bool {
        &&& 400 <= self.status_code <= 599
        &&& self.status_code == spec_status(self.cause)
        &&& spec_status_of(self.reporting_metadata@) == Some(self.status_code as u64)
    }

    /// Classifies a failure cause: resolves its status code and attaches the
    /// code as reporting metadata.
    pub fn from_kind(kind: ErrorKind) -> (r: ClassifiedError)
        ensures
            r.wf(),
            r.cause == kind,
            r.status_code == spec_status(kind),
            r.reporting_metadata@.len() == 1,
            r.reporting_metadata@[0] == (MetadataEntry {
                key: MetadataKey::StatusCode,
                value: spec_status(kind) as u64,
            }),
    {
        let (status_code, _severity) = crate::errors::classify(kind);
        let mut reporting_metadata: Vec<MetadataEntry> = Vec::new();
        reporting_metadata.push(MetadataEntry {
            key: MetadataKey::StatusCode,
            value: status_code as u64,
        });
        ClassifiedError { status_code, cause: kind, reporting_metadata }
    }

    /// Builds the telemetry event offered for this classified error: the
    /// cause's description as message, the reporting metadata as the event's
    /// own request-scoped attachment.
    pub fn to_event(&self) -> (ev: TelemetryEvent)
        ensures
            ev.message@ == spec_description(self.cause),
            ev.extra@ == self.reporting_metadata@,
    {
        TelemetryEvent {
            message: self.cause.description(),
            extra: copy_entries(&self.reporting_metadata),
        }
    }

    /// The textual description of the failure, used as the body of the HTTP
    /// error response.
    pub fn description(&self) -> (r: String)
        ensures
            r@ == spec_description(self.cause),
    {
        self.cause.description()
    }
}

} // verus!
