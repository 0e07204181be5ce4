//! The closed set of failure causes the service recognizes, and the total
//! classification function that maps each cause to an HTTP status code and
//! a reporting severity.

use vstd::prelude::*;

verus! {

/// A failure cause recognized by the service.
///
/// The set is closed: every variant is classified by [`classify`], and adding
/// a variant without extending the classification table fails to compile,
/// because the match there is exhaustive with no default arm.
#[derive(Clone, Copy, Debug, PartialEq, Eq, Structural)]
pub enum ErrorKind {
    /// The caller asked for a division by zero.
    DivideByZero,
    /// A required piece of configuration is absent.
    MissingConfiguration,
    /// The upstream transport layer failed.
    UpstreamTransportFailure,
    /// An input/output operation failed.
    IOFailure,
}

/// Whether a failure is the caller's fault (4xx) or the system's (5xx).
#[derive(Clone, Copy, Debug, PartialEq, Eq, Structural)]
pub enum Severity {
    /// The caller's input was invalid; logged but not reported to telemetry.
    ClientFault,
    /// The system misbehaved; logged and reported to telemetry.
    ServerFault,
}

/// The HTTP status code assigned to each failure cause.
pub open spec fn spec_status(kind: ErrorKind) -> u16 {
    match kind {
        ErrorKind::DivideByZero => 400,
        ErrorKind::MissingConfiguration => 500,
        ErrorKind::UpstreamTransportFailure => 500,
        ErrorKind::IOFailure => 500,
    }
}

/// The reporting severity assigned to each failure cause.
pub open spec fn spec_severity(kind: ErrorKind) -> Severity {
    match kind {
        ErrorKind::DivideByZero => Severity::ClientFault,
        ErrorKind::MissingConfiguration => Severity::ServerFault,
        ErrorKind::UpstreamTransportFailure => Severity::ServerFault,
        ErrorKind::IOFailure => Severity::ServerFault,
    }
}

/// Maps a failure cause to its HTTP status code and reporting severity.
///
/// Total and pure: every variant of the closed set is classified, the same
/// input always yields the same output, and nothing outside the argument is
/// consulted.
pub fn classify(kind: ErrorKind) -> (r: (u16, Severity))
    ensures
        r.0 == spec_status(kind),
        r.1 == spec_severity(kind),
        400 <= r.0 <= 599,
        r.1 == Severity::ClientFault <==> 400 <= r.0 < 500,
{
    match kind {
        ErrorKind::DivideByZero => (400, Severity::ClientFault),
        ErrorKind::MissingConfiguration => (500, Severity::ServerFault),
        ErrorKind::UpstreamTransportFailure => (500, Severity::ServerFault),
        ErrorKind::IOFailure => (500, Severity::ServerFault),
    }
}

/// The human-readable description of each failure cause.
pub open spec fn spec_description(kind: ErrorKind) -> Seq<char> {
    match kind {
        ErrorKind::DivideByZero => "cannot divide by zero"@,
        ErrorKind::MissingConfiguration => "required configuration is unset"@,
        ErrorKind::UpstreamTransportFailure => "upstream transport failure"@,
        ErrorKind::IOFailure => "input/output failure"@,
    }
}

impl ErrorKind {
    /// Returns the human-readable description of this failure cause; it
    /// becomes the body of the HTTP error response.
    pub fn description(&self) -> (r: String)
        ensures
            r@ == spec_description(*self),
    {
        match self {
            ErrorKind::DivideByZero => "cannot divide by zero".to_string(),
            ErrorKind::MissingConfiguration => "required configuration is unset".to_string(),
            ErrorKind::UpstreamTransportFailure => "upstream transport failure".to_string(),
            ErrorKind::IOFailure => "input/output failure".to_string(),
        }
    }
}

} // verus!
