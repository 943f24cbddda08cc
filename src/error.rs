//! The errors that an operation of the client can end in.

use vstd::prelude::*;

use crate::wire::{decoded, response, ProtocolError, ResponseModel};

verus! {

/// `std::io::Error`, carried through unchanged as the cause of a transport
/// failure.
#[verifier::external_type_specification]
#[verifier::external_body]
pub struct ExIoError(std::io::Error);

/// Why an operation failed.
#[derive(Debug)]
pub enum ClientError {
    /// The connection failed: connect, read or write.
    Io(std::io::Error),
    /// The server answered with an error; its message as text.
    OperationFailed(String),
    /// The server's answer breaks the protocol; the connection is out of step.
    InvalidResponse(ProtocolError),
}

/// `r` is what the response frame `s` answers: its payload on success, the
/// server's message on an error status, the protocol error otherwise.
pub open spec fn answers(r: Result<Vec<u8>, ClientError>, s: Seq<u8>) -> bool {
    match r {
        Ok(v) => response(s) == ResponseModel::Success(v@),
        Err(ClientError::OperationFailed(m)) => response(s) == ResponseModel::Failure(m@),
        Err(ClientError::InvalidResponse(e)) => response(s) == decoded(Err(e)),
        Err(ClientError::Io(_)) => false,
    }
}

} // verus!
