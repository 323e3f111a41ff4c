//! The fixed request header that precedes every request.

use crate::error::CodecError;
use crate::wire::{be16_value, be32_value, read_u16_at, read_u32_at};
use vstd::prelude::*;

verus! {

/// Bytes taken by the four header fields.
pub const HEADER_LEN: usize = 12;

/// The header fields of one inbound request.
#[derive(Debug, Clone, Copy, PartialEq, Eq, Structural)]
pub struct KafkaRequest {
    /// Declared byte length of the rest of the request; not checked.
    pub message_size: u32,
    /// The operation requested.
    pub api_key: u16,
    /// The protocol version the client speaks for that operation.
    pub api_version: u16,
    /// Opaque token that the response echoes.
    pub correlation_id: u32,
}

impl KafkaRequest {
    /// The header that the first `HEADER_LEN` bytes of `b` spell, each field
    /// big-endian.
    pub open spec fn from_bytes(b: Seq<u8>) -> KafkaRequest {
        KafkaRequest {
            message_size: be32_value(b, 0) as u32,
            api_key: be16_value(b, 4) as u16,
            api_version: be16_value(b, 6) as u16,
            correlation_id: be32_value(b, 8) as u32,
        }
    }

    /// Decodes the header at the start of `buffer`; bytes after it are
    /// ignored and `message_size` is not checked against them.
    pub fn parse(buffer: &[u8]) -> (r: Result<KafkaRequest, CodecError>)
        ensures
            buffer@.len() < HEADER_LEN ==> r == Err::<KafkaRequest, CodecError>(
                CodecError::TruncatedInput,
            ),
            buffer@.len() >= HEADER_LEN ==> r == Ok::<KafkaRequest, CodecError>(
                KafkaRequest::from_bytes(buffer@),
            ),
            r matches Ok(h) ==> {
                &&& h.message_size == be32_value(buffer@, 0)
                &&& h.api_key == be16_value(buffer@, 4)
                &&& h.api_version == be16_value(buffer@, 6)
                &&& h.correlation_id == be32_value(buffer@, 8)
            },
    {
        if buffer.len() < HEADER_LEN {
            return Err(CodecError::TruncatedInput);
        }
        let message_size = read_u32_at(buffer, 0);
        let api_key = read_u16_at(buffer, 4);
        let api_version = read_u16_at(buffer, 6);
        let correlation_id = read_u32_at(buffer, 8);
        Ok(KafkaRequest { message_size, api_key, api_version, correlation_id })
    }
}

} // verus!
