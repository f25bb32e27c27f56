//! The answer to a write.
//!
//! ```text
//! | 1 byte |
//! | error  |
//! ```

use crate::messages::message::{CodecError, MessagePayload, MessageType};
use vstd::prelude::*;

verus! {

/// What the error byte of a write response says.
#[derive(Debug, Clone, Copy, PartialEq, Eq, Structural)]
pub enum WriteResponseError {
    NoError,
    Error,
}

impl WriteResponseError {
    /// The byte that stands for the outcome on the wire.
    pub open spec fn code(self) -> u8 {
        match self {
            WriteResponseError::NoError => 0,
            WriteResponseError::Error => 1,
        }
    }

    /// The byte that is written for it.
    pub fn as_u8(self) -> (b: u8)
        ensures
            b == self.code(),
    {
        match self {
            WriteResponseError::NoError => 0,
            WriteResponseError::Error => 1,
        }
    }
}

#[derive(Debug, Clone, Copy, PartialEq, Eq, Structural)]
pub struct WriteResponse {
    pub error: u8,
}

impl View for WriteResponse {
    type V = WriteResponse;

    open spec fn view(&self) -> WriteResponse {
        *self
    }
}

impl MessagePayload for WriteResponse {
    open spec fn spec_is_request() -> bool {
        false
    }

    open spec fn spec_message_type() -> MessageType {
        MessageType::Write
    }

    open spec fn spec_serialize(v: WriteResponse) -> Result<Seq<u8>, CodecError> {
        Ok(seq![v.error])
    }

    /// Bytes after the first are not looked at.
    open spec fn spec_deserialize(b: Seq<u8>) -> Result<WriteResponse, CodecError> {
        if b.len() < 1 {
            Err(CodecError::Truncated)
        } else {
            Ok(WriteResponse { error: b[0] })
        }
    }

    fn is_request(&self) -> (r: bool) {
        false
    }

    fn get_message_type(&self) -> (t: MessageType) {
        MessageType::Write
    }

    fn serialize(&self) -> (r: Result<Vec<u8>, CodecError>) {
        let mut buffer: Vec<u8> = Vec::new();
        buffer.push(self.error);
        assert(buffer@ =~= seq![self.error]);
        Ok(buffer)
    }

    fn deserialize(buffer: &[u8]) -> (r: Result<Self, CodecError>) {
        if buffer.len() < 1 {
            return Err(CodecError::Truncated);
        }
        Ok(WriteResponse { error: buffer[0] })
    }

    proof fn lemma_round_trip(v: WriteResponse) {
    }
}

} // verus!
