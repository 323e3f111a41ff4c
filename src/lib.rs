//! Request-header decoding and ApiVersions response encoding for a
//! Kafka-style binary wire protocol.

mod error;
mod laws;
mod request;
mod response;
mod wire;

pub use error::CodecError;
pub use laws::{
    lemma_count_field, lemma_encoding_deterministic, lemma_entry_at, lemma_error_code_field,
    lemma_framed_length, lemma_length_prefix, lemma_tagged_fields, lemma_throttle_time,
};
pub use request::{KafkaRequest, HEADER_LEN};
pub use response::{
    body_bytes, body_len, count_field, default_registry, default_registry_spec, encodable, encode,
    encoded, entries_bytes, entry_bytes, entry_len, framed, lemma_body_len, lemma_entries_len,
    response_body, tag_marker, throttle_field, ApiKeyInfo, ApiVersionResponse, ErrorCode,
    COMPACT_VERSION, MAX_SUPPORTED_VERSION, MAX_U32_FIELD,
    THROTTLE_TIME_VERSION,
};
pub use wire::{be16, be16_value, be32, be32_value, lemma_be16_inverse, lemma_be32_inverse};
