//! Errors of the library.

use crate::protocol::AckCode;
use crate::protocol::CommandCode;
use vstd::prelude::*;

verus! {

/// The I/O error of a socket, carried through unread.
#[verifier::external_type_specification]
#[verifier::external_body]
pub struct ExIoError(std::io::Error);

/// Represents all of the errors in the Etherdream library.
#[derive(Debug)]
pub enum EtherdreamError {
    /// Invalid length for an Etherdream response.
    BadResponseLength {
        /// Description of the error.
        description: String,
    },
    /// Network error.
    IoError {
        /// Cause of the error.
        cause: std::io::Error,
    },
    /// Received a NACK from the EtherDream in response to a command.
    ReceivedNack {
        /// Type of NACK received.
        code: AckCode,
        /// The command the NACK was in response to.
        command: CommandCode,
    },
    /// We received a response for the wrong command.
    WrongResponse,
}

impl EtherdreamError {
    /// The name of the error's kind.
    pub fn description(&self) -> (r: &'static str)
        ensures
            r@ == match self {
                EtherdreamError::BadResponseLength { .. } => "BadResponseLength"@,
                EtherdreamError::IoError { .. } => "IoError"@,
                EtherdreamError::ReceivedNack { .. } => "ReceivedNack"@,
                EtherdreamError::WrongResponse => "WrongResponse"@,
            },
    {
        match self {
            EtherdreamError::BadResponseLength { .. } => "BadResponseLength",
            EtherdreamError::IoError { .. } => "IoError",
            EtherdreamError::ReceivedNack { .. } => "ReceivedNack",
            EtherdreamError::WrongResponse => "WrongResponse",
        }
    }
}

impl From<std::io::Error> for EtherdreamError {
    fn from(error: std::io::Error) -> (r: Self)
        ensures
            r == (EtherdreamError::IoError { cause: error }),
    {
        EtherdreamError::IoError { cause: error }
    }
}

impl vstd::std_specs::convert::FromSpecImpl<std::io::Error> for EtherdreamError {
    open spec fn obeys_from_spec() -> bool {
        true
    }

    open spec fn from_spec(error: std::io::Error) -> EtherdreamError {
        EtherdreamError::IoError { cause: error }
    }
}

}
