//! The faults that the runtime reports.

use vstd::prelude::*;

verus! {

/// What can go wrong on a connection.
#[derive(Debug, Clone, Copy, PartialEq, Eq, Structural)]
pub enum RpcError {
    /// The transport failed, or ended before a whole value was read.
    IoError,
    /// A value was read that is no well-formed RPC message.
    MalformedMessage,
    /// A response arrived whose ID matches no outstanding request.
    UnknownResponseId,
    /// The endpoint was torn down.
    TransportClosed,
    /// Every ID is taken by an outstanding request.
    IdSpaceExhausted,
}

impl RpcError {
    /// The words that describe each fault.
    pub open spec fn description(&self) -> Seq<char> {
        match self {
            RpcError::IoError => "transport failure"@,
            RpcError::MalformedMessage => "malformed message"@,
            RpcError::UnknownResponseId => "unknown response id"@,
            RpcError::TransportClosed => "transport closed"@,
            RpcError::IdSpaceExhausted => "no free request id"@,
        }
    }

    /// A short description, for logs and error reports.
    pub fn describe(&self) -> (text: String)
        ensures
            text@ == self.description(),
    {
        match self {
            RpcError::IoError => "transport failure".to_string(),
            RpcError::MalformedMessage => "malformed message".to_string(),
            RpcError::UnknownResponseId => "unknown response id".to_string(),
            RpcError::TransportClosed => "transport closed".to_string(),
            RpcError::IdSpaceExhausted => "no free request id".to_string(),
        }
    }
}

} // verus!
