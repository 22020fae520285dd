use vstd::prelude::*;

verus! {

/// Why one readiness probe failed.
#[derive(Clone, Copy, Debug, PartialEq, Eq, Structural)]
pub enum HealthCheckError {
    /// The request did not complete within the per-attempt timeout.
    Timeout,
    /// The server answered with a status other than 200, or could not be reached.
    NetworkError,
}

/// What one readiness GET brought back, as plain values.
#[derive(Clone, Copy, Debug, PartialEq, Eq, Structural)]
pub enum ProbeReply {
    /// The server answered with this status code.
    Status(u16),
    /// The request failed below HTTP; `timed_out` tells a timeout from other failures.
    TransportError { timed_out: bool },
}

pub open spec fn classify_spec(reply: ProbeReply) -> Result<(), HealthCheckError> {
    match reply {
        ProbeReply::Status(code) => if code == 200 {
            Ok(())
        } else {
            Err(HealthCheckError::NetworkError)
        },
        ProbeReply::TransportError { timed_out } => if timed_out {
            Err(HealthCheckError::Timeout)
        } else {
            Err(HealthCheckError::NetworkError)
        },
    }
}

/// Classifies one probe: 200 is success, a timeout is `Timeout`, anything
/// else is `NetworkError`.
pub fn classify(reply: ProbeReply) -> (r: Result<(), HealthCheckError>)
    ensures
        r == classify_spec(reply),
{
    match reply {
        ProbeReply::Status(code) => if code == 200 {
            Ok(())
        } else {
            Err(HealthCheckError::NetworkError)
        },
        ProbeReply::TransportError { timed_out } => if timed_out {
            Err(HealthCheckError::Timeout)
        } else {
            Err(HealthCheckError::NetworkError)
        },
    }
}

} // verus!
