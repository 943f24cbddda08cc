//! The request/response discipline of one connection.
//!
//! A session is idle, sending one request, or awaiting its response; it
//! never has two requests out. A transport failure or a response that breaks
//! the protocol leaves it broken for good: the connection has to be opened
//! anew. The session decides; whoever owns the connection reads and writes.

use vstd::prelude::*;

use crate::error::{answers, ClientError};
use crate::wire::{decode, fits, frame, DecodedResponse, Operation};

verus! {

/// Where a session stands.
#[derive(Debug, Clone, Copy, PartialEq, Eq, Structural)]
pub enum Phase {
    /// No request is out.
    Idle,
    /// A request frame is being written.
    Sending,
    /// The request went out; its response has not come yet.
    AwaitingResponse,
    /// The connection is out of step and cannot be used again.
    Broken,
}

/// Maps a response frame to what the operation returns: the payload on
/// success, the server's message on an error status, the protocol error
/// for an empty frame or an unknown status.
pub fn outcome(response: &[u8]) -> (r: Result<Vec<u8>, ClientError>)
    ensures
        answers(r, response@),
{
    match decode(response) {
        Ok(DecodedResponse::Success(payload)) => Ok(payload),
        Ok(DecodedResponse::Failure(message)) => Err(ClientError::OperationFailed(message)),
        Err(e) => Err(ClientError::InvalidResponse(e)),
    }
}

/// The state of one connection's exchange.
pub struct Session {
    phase: Phase,
}

impl View for Session {
    type V = Phase;

    closed spec fn view(&self) -> Phase {
        self.phase
    }
}

impl Session {
    /// A session over a freshly opened connection.
    pub fn new() -> (s: Session)
        ensures
            s@ == Phase::Idle,
    {
        Session { phase: Phase::Idle }
    }

    /// Where the session stands.
    pub fn phase(&self) -> (p: Phase)
        ensures
            p == self@,
    {
        self.phase
    }

    /// Starts a request: the frame to write in full before anything is read.
    pub fn begin(&mut self, op: &Operation) -> (r: Vec<u8>)
        requires
            old(self)@ == Phase::Idle,
            fits(op@),
        ensures
            final(self)@ == Phase::Sending,
            r@ == frame(op@),
    {
        self.phase = Phase::Sending;
        crate::wire::encode(op)
    }

    /// The whole request frame has been written and flushed.
    pub fn sent(&mut self)
        requires
            old(self)@ == Phase::Sending,
        ensures
            final(self)@ == Phase::AwaitingResponse,
    {
        self.phase = Phase::AwaitingResponse;
    }

    /// Takes the response to the request that is out. The session is idle
    /// again unless the response broke the protocol.
    pub fn receive(&mut self, response: &[u8]) -> (r: Result<Vec<u8>, ClientError>)
        requires
            old(self)@ == Phase::AwaitingResponse,
        ensures
            answers(r, response@),
            final(self)@ == (if r is Err && r->Err_0 is InvalidResponse {
                Phase::Broken
            } else {
                Phase::Idle
            }),
    {
        let r = outcome(response);
        self.phase = match &r {
            Err(ClientError::InvalidResponse(_)) => Phase::Broken,
            _ => Phase::Idle,
        };
        r
    }

    /// The connection failed while a request was being written or awaited.
    pub fn fail(&mut self)
        ensures
            final(self)@ == Phase::Broken,
    {
        self.phase = Phase::Broken;
    }
}

} // verus!
