//! How the answers of the object stores are read.

use vstd::prelude::*;

verus! {

/// Why a transfer to or from an object store did not succeed.
#[derive(Clone, Copy, Debug, PartialEq, Eq, Structural)]
pub enum TransportError {
    /// The request itself failed: no response was received.
    Request,
    /// A response came back, with a status outside the success class.
    HttpFail,
}

/// A status of the success class: 200 up to and including 299.
pub open spec fn is_success(status: u16) -> bool {
    200 <= status <= 299
}

/// Tells whether an HTTP-style status reports success.
pub fn status_is_success(status: u16) -> (ok: bool)
    ensures
        ok == is_success(status),
{
    200 <= status && status <= 299
}

/// What a transfer's response amounts to: `None` stands for a request that
/// brought no response, `Some(status)` for one that was answered.
pub open spec fn response_verdict(response: Option<u16>) -> Result<(), TransportError> {
    match response {
        None => Err(TransportError::Request),
        Some(status) => if is_success(status) {
            Ok(())
        } else {
            Err(TransportError::HttpFail)
        },
    }
}

/// Judges the response of a transfer.  Anything but a status of the
/// success class is a failure; there is no partial success.
pub fn judge_response(response: Option<u16>) -> (verdict: Result<(), TransportError>)
    ensures
        verdict == response_verdict(response),
{
    match response {
        None => Err(TransportError::Request),
        Some(status) => if status_is_success(status) {
            Ok(())
        } else {
            Err(TransportError::HttpFail)
        },
    }
}

} // verus!
