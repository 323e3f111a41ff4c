//! The conditions under which the codec gives up.

use vstd::prelude::*;

verus! {

/// Why decoding or encoding failed.
#[derive(Debug, Clone, Copy, PartialEq, Eq, Structural)]
pub enum CodecError {
    /// The input ended before the last header field.
    TruncatedInput,
    /// The response body is too long for its 32-bit length prefix.
    SerializationFailure,
}

} // verus!
