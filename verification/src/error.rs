//! The failures an exchange can end in.

use crate::status::StatusCode;
use vstd::prelude::*;

verus! {

/// A command could not be framed.
#[derive(Clone, Copy, Debug, PartialEq, Eq, Structural)]
pub enum EncodingError {
    /// The payload does not fit the one-byte length field.
    PayloadTooLarge {
        /// Number of payload bytes that were offered.
        len: usize,
    },
}

/// A payload does not follow the layout of the record asked for.
#[derive(Clone, Copy, Debug, PartialEq, Eq, Structural)]
pub enum DecodeError {
    /// The payload is too short, one of its length bytes runs past its end,
    /// or one of its fields does not hold what the layout calls for.
    Malformed,
}

/// A failure reported by the transport. The protocol layer never looks
/// inside: it hands the value on as it came.
#[derive(Debug, PartialEq, Eq)]
pub struct TransportError {
    /// What the transport said went wrong.
    pub detail: String,
}

impl Clone for TransportError {
    fn clone(&self) -> (copy: TransportError)
        ensures
            copy == *self,
    {
        TransportError { detail: self.detail.clone() }
    }
}

/// Why an exchange produced no record.
#[derive(Debug, PartialEq, Eq)]
pub enum ProtocolError {
    /// The command could not be framed.
    Encoding(EncodingError),
    /// The transport failed to deliver a reply.
    Transport(TransportError),
    /// The reply is too short to hold a status word.
    TruncatedResponse,
    /// The device answered with a status other than success.
    DeviceError(StatusCode),
    /// The payload of a successful reply could not be decoded.
    Decode(DecodeError),
}

impl Clone for ProtocolError {
    fn clone(&self) -> (copy: ProtocolError)
        ensures
            copy == *self,
    {
        match self {
            ProtocolError::Encoding(e) => ProtocolError::Encoding(*e),
            ProtocolError::Transport(e) => ProtocolError::Transport(e.clone()),
            ProtocolError::TruncatedResponse => ProtocolError::TruncatedResponse,
            ProtocolError::DeviceError(status) => ProtocolError::DeviceError(*status),
            ProtocolError::Decode(e) => ProtocolError::Decode(*e),
        }
    }
}

impl From<EncodingError> for ProtocolError {
    fn from(e: EncodingError) -> (error: ProtocolError) {
        ProtocolError::Encoding(e)
    }
}

impl vstd::std_specs::convert::FromSpecImpl<EncodingError> for ProtocolError {
    open spec fn obeys_from_spec() -> bool {
        true
    }

    open spec fn from_spec(e: EncodingError) -> ProtocolError {
        ProtocolError::Encoding(e)
    }
}

impl From<TransportError> for ProtocolError {
    fn from(e: TransportError) -> (error: ProtocolError) {
        ProtocolError::Transport(e)
    }
}

impl vstd::std_specs::convert::FromSpecImpl<TransportError> for ProtocolError {
    open spec fn obeys_from_spec() -> bool {
        true
    }

    open spec fn from_spec(e: TransportError) -> ProtocolError {
        ProtocolError::Transport(e)
    }
}

impl From<DecodeError> for ProtocolError {
    fn from(e: DecodeError) -> (error: ProtocolError) {
        ProtocolError::Decode(e)
    }
}

impl vstd::std_specs::convert::FromSpecImpl<DecodeError> for ProtocolError {
    open spec fn obeys_from_spec() -> bool {
        true
    }

    open spec fn from_spec(e: DecodeError) -> ProtocolError {
        ProtocolError::Decode(e)
    }
}

} // verus!
