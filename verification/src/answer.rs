//! What came back from a call, and the ways in which a call can fail.
//!
//! A call fails when the request does not get through, when the server
//! answers with a status that is not a success, or when the body is not the
//! JSON that was expected. No failure is retried or mended here: each is
//! handed to the caller as it is.

use vstd::prelude::*;

verus! {

/// Why a call failed.
#[derive(Debug, Clone)]
pub enum Failure {
    /// The request did not get through, or the answer did not arrive whole.
    Transport(String),
    /// The server answered with a status outside 200 to 299. The body of the
    /// answer, which may describe the error, is kept as it came.
    Status { code: u16, payload: Vec<u8> },
    /// The body of the answer could not be read as the JSON that was expected.
    Decode(String),
}

/// Whether a status reports success: 200 to 299.
#[verifier::allow_in_spec]
pub fn is_success(status: u16) -> bool
    returns
        200 <= status && status <= 299,
{
    200 <= status && status <= 299
}

/// Sorts an answer by its status: the body of a success is handed on for
/// decoding, and any other answer is a failure that carries the status and
/// the body.
pub fn accept(status: u16, body: Vec<u8>) -> (answer: Result<Vec<u8>, Failure>)
    ensures
        is_success(status) ==> answer == Ok::<Vec<u8>, Failure>(body),
        !is_success(status) ==> answer == Err::<Vec<u8>, Failure>(
            (Failure::Status { code: status, payload: body }),
        ),
{
    if is_success(status) {
        Ok(body)
    } else {
        Err(Failure::Status { code: status, payload: body })
    }
}

} // verus!
