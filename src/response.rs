//! The ApiVersions response: its model as bytes, and its encoder.

use crate::error::CodecError;
use crate::wire::{be16, be32, put_u16, put_u32, put_u8};
use vstd::prelude::*;
use vstd::slice::slice_to_vec;

verus! {

/// Highest ApiVersions version this encoder knows how to emit. It is a
/// policy of the encoder, not read from the registry: the two may differ.
pub const MAX_SUPPORTED_VERSION: u16 = 4;

/// First version that carries the throttle time.
pub const THROTTLE_TIME_VERSION: u16 = 1;

/// First version that uses a compact array and tagged-field markers.
pub const COMPACT_VERSION: u16 = 3;

/// Largest value of a 32-bit length or count field.
pub const MAX_U32_FIELD: usize = 0xFFFF_FFFF;

/// One advertised operation and the versions of it that are served.
#[derive(Debug, Clone, Copy, PartialEq, Eq, Structural)]
pub struct ApiKeyInfo {
    pub api_key: u16,
    pub min_version: u16,
    pub max_version: u16,
}

impl ApiKeyInfo {
    /// A registry entry names a non-empty version range.
    pub open spec fn wf(self) -> bool {
        self.min_version <= self.max_version
    }
}

/// The outcome that a response reports.
#[derive(Debug, Clone, Copy, PartialEq, Eq, Structural)]
pub enum ErrorCode {
    NoError,
    UnsupportedError,
}

impl ErrorCode {
    pub open spec fn spec_code(self) -> u16 {
        match self {
            ErrorCode::NoError => 0,
            ErrorCode::UnsupportedError => 35,
        }
    }

    /// The number that stands for this outcome on the wire.
    #[verifier::when_used_as_spec(spec_code)]
    pub fn code(self) -> (r: u16)
        ensures
            r == self.spec_code(),
    {
        match self {
            ErrorCode::NoError => 0,
            ErrorCode::UnsupportedError => 35,
        }
    }

    /// The outcome for a request of ApiVersions version `v`.
    pub open spec fn spec_for_version(v: u16) -> ErrorCode {
        if v <= MAX_SUPPORTED_VERSION {
            ErrorCode::NoError
        } else {
            ErrorCode::UnsupportedError
        }
    }

    /// Versions up to `MAX_SUPPORTED_VERSION` are served; any other is
    /// answered with `UnsupportedError`.
    #[verifier::when_used_as_spec(spec_for_version)]
    pub fn for_version(v: u16) -> (r: ErrorCode)
        ensures
            r == Self::spec_for_version(v),
    {
        if v <= MAX_SUPPORTED_VERSION {
            ErrorCode::NoError
        } else {
            ErrorCode::UnsupportedError
        }
    }
}

/// The registry this server advertises: ApiVersions (key 18) at versions
/// 0 to 4, and key 75 at version 0 only.
pub open spec fn default_registry_spec() -> Seq<ApiKeyInfo> {
    seq![
        ApiKeyInfo { api_key: 18, min_version: 0, max_version: 4 },
        ApiKeyInfo { api_key: 75, min_version: 0, max_version: 0 },
    ]
}

/// Builds the registry this server advertises.
pub fn default_registry() -> (r: Vec<ApiKeyInfo>)
    ensures
        r@ == default_registry_spec(),
        forall|i: int| 0 <= i < r@.len() ==> (#[trigger] r@[i]).wf(),
{
    let r = vec![
        ApiKeyInfo { api_key: 18, min_version: 0, max_version: 4 },
        ApiKeyInfo { api_key: 75, min_version: 0, max_version: 0 },
    ];
    assert(r@ =~= default_registry_spec());
    r
}

/// The empty tagged-field marker where version `v` has one, else nothing.
pub open spec fn tag_marker(v: u16) -> Seq<u8> {
    if v >= COMPACT_VERSION {
        seq![0u8]
    } else {
        Seq::empty()
    }
}

/// The length field of an array of `n` entries: `n + 1` in one byte for the
/// compact form, else `n` as a 32-bit field. The compact byte keeps `n + 1`
/// modulo 256, so it wraps for registries of more than 254 entries.
pub open spec fn count_field(n: nat, v: u16) -> Seq<u8> {
    if v >= COMPACT_VERSION {
        seq![((n + 1) % 256) as u8]
    } else {
        be32(n as u32)
    }
}

/// The throttle time field where version `v` has one, else nothing.
pub open spec fn throttle_field(t: u32, v: u16) -> Seq<u8> {
    if v >= THROTTLE_TIME_VERSION {
        be32(t)
    } else {
        Seq::empty()
    }
}

/// The bytes of one registry entry.
pub open spec fn entry_bytes(e: ApiKeyInfo, v: u16) -> Seq<u8> {
    be16(e.api_key) + be16(e.min_version) + be16(e.max_version) + tag_marker(v)
}

/// The bytes of the registry entries, one after another in order.
pub open spec fn entries_bytes(es: Seq<ApiKeyInfo>, v: u16) -> Seq<u8>
    decreases es.len(),
{
    if es.len() == 0 {
        Seq::empty()
    } else {
        entries_bytes(es.drop_last(), v) + entry_bytes(es.last(), v)
    }
}

/// The response body (everything after the length prefix) at version `v`.
pub open spec fn body_bytes(
    correlation_id: u32,
    error_code: u16,
    keys: Seq<ApiKeyInfo>,
    throttle_time_ms: u32,
    v: u16,
) -> Seq<u8> {
    be32(correlation_id) + be16(error_code) + count_field(keys.len(), v) + entries_bytes(keys, v)
        + throttle_field(throttle_time_ms, v) + tag_marker(v)
}

/// Bytes taken by one registry entry at version `v`.
pub open spec fn entry_len(v: u16) -> nat {
    if v >= COMPACT_VERSION {
        7
    } else {
        6
    }
}

/// Bytes taken by a body with `n` registry entries at version `v`.
pub open spec fn body_len(n: nat, v: u16) -> nat {
    6 + (if v >= COMPACT_VERSION {
        1nat
    } else {
        4nat
    }) + n * entry_len(v) + (if v >= THROTTLE_TIME_VERSION {
        4nat
    } else {
        0nat
    }) + (if v >= COMPACT_VERSION {
        1nat
    } else {
        0nat
    })
}

/// A registry of `n` entries can be sent at version `v`: the body's length
/// fits the length prefix.
pub open spec fn encodable(n: nat, v: u16) -> bool {
    body_len(n, v) <= MAX_U32_FIELD
}

/// A body preceded by its length as a 32-bit field.
pub open spec fn framed(body: Seq<u8>) -> Seq<u8> {
    be32(body.len() as u32) + body
}

/// The body answering a request of version `v` with `correlation_id`,
/// advertising `keys`.
pub open spec fn response_body(correlation_id: u32, v: u16, keys: Seq<ApiKeyInfo>) -> Seq<u8> {
    body_bytes(correlation_id, ErrorCode::for_version(v).code(), keys, 0, v)
}

/// The bytes sent back for a request of version `v` with `correlation_id`,
/// advertising `keys`.
pub open spec fn encoded(correlation_id: u32, v: u16, keys: Seq<ApiKeyInfo>) -> Seq<u8> {
    framed(response_body(correlation_id, v, keys))
}

/// The entries take `entry_len(v)` bytes each.
pub proof fn lemma_entries_len(es: Seq<ApiKeyInfo>, v: u16)
    ensures
        entries_bytes(es, v).len() == es.len() * entry_len(v),
    decreases es.len(),
{
    if es.len() > 0 {
        lemma_entries_len(es.drop_last(), v);
        assert(es.len() * entry_len(v) == (es.len() - 1) * entry_len(v) + entry_len(v))
            by (nonlinear_arith);
    }
}

/// The body's length is `body_len` of its entry count.
pub proof fn lemma_body_len(
    correlation_id: u32,
    error_code: u16,
    keys: Seq<ApiKeyInfo>,
    throttle_time_ms: u32,
    v: u16,
)
    ensures
        body_bytes(correlation_id, error_code, keys, throttle_time_ms, v).len() == body_len(
            keys.len(),
            v,
        ),
{
    lemma_entries_len(keys, v);
}

/// An ApiVersions response before it is put on the wire.
#[derive(Debug)]
pub struct ApiVersionResponse {
    pub correlation_id: u32,
    pub error_code: u16,
    pub api_keys: Vec<ApiKeyInfo>,
    pub throttle_time_ms: u32,
}

impl ApiVersionResponse {
    /// The body of this response at version `v`.
    pub open spec fn body(&self, v: u16) -> Seq<u8> {
        body_bytes(self.correlation_id, self.error_code, self.api_keys@, self.throttle_time_ms, v)
    }

    /// The response to a request of version `api_version`, advertising the
    /// default registry.
    pub fn new(correlation_id: u32, api_version: u16) -> (r: ApiVersionResponse)
        ensures
            r.correlation_id == correlation_id,
            r.error_code == ErrorCode::for_version(api_version).code(),
            r.api_keys@ == default_registry_spec(),
            r.throttle_time_ms == 0,
    {
        Self::with_registry(correlation_id, api_version, default_registry())
    }

    /// The response to a request of version `api_version`, advertising
    /// `api_keys`.
    pub fn with_registry(correlation_id: u32, api_version: u16, api_keys: Vec<ApiKeyInfo>) -> (r:
        ApiVersionResponse)
        ensures
            r.correlation_id == correlation_id,
            r.error_code == ErrorCode::for_version(api_version).code(),
            r.api_keys@ == api_keys@,
            r.throttle_time_ms == 0,
    {
        let error_code = ErrorCode::for_version(api_version).code();
        ApiVersionResponse { correlation_id, error_code, api_keys, throttle_time_ms: 0 }
    }

    /// The wire form of this response at version `api_version`: the body,
    /// preceded by its length. Fails, writing nothing, where the body is too
    /// long for its 32-bit length prefix. From version 3 on the count byte
    /// wraps modulo 256 for registries of more than 254 entries.
    pub fn serialize(&self, api_version: u16) -> (r: Result<Vec<u8>, CodecError>)
        ensures
            r is Ok <==> encodable(self.api_keys@.len(), api_version),
            r matches Ok(bytes) ==> bytes@ == framed(self.body(api_version)),
            r matches Err(e) ==> e == CodecError::SerializationFailure,
    {
        let n = self.api_keys.len();
        let compact = api_version >= COMPACT_VERSION;
        proof {
            lemma_body_len(
                self.correlation_id,
                self.error_code,
                self.api_keys@,
                self.throttle_time_ms,
                api_version,
            );
        }
        if n > MAX_U32_FIELD {
            assert(n * entry_len(api_version) >= n) by (nonlinear_arith)
                requires
                    entry_len(api_version) >= 1,
            ;
            return Err(CodecError::SerializationFailure);
        }
        let mut body: Vec<u8> = Vec::new();
        put_u32(&mut body, self.correlation_id);
        put_u16(&mut body, self.error_code);
        if compact {
            let low = (n % 256) as u8;
            let count_byte: u8 = if low == 255 {
                0
            } else {
                low + 1
            };
            assert(count_byte == (n + 1) % 256);
            put_u8(&mut body, count_byte);
        } else {
            put_u32(&mut body, n as u32);
        }
        let ghost head = body@;
        assert(head =~= be32(self.correlation_id) + be16(self.error_code) + count_field(
            n as nat,
            api_version,
        ));
        let mut i: usize = 0;
        while i < n
            invariant
                n == self.api_keys@.len(),
                compact == (api_version >= COMPACT_VERSION),
                i <= n,
                body@ == head + entries_bytes(self.api_keys@.take(i as int), api_version),
            decreases n - i,
        {
            let e = self.api_keys[i];
            let ghost before = body@;
            put_u16(&mut body, e.api_key);
            put_u16(&mut body, e.min_version);
            put_u16(&mut body, e.max_version);
            if compact {
                put_u8(&mut body, 0);
            }
            proof {
                let taken = self.api_keys@.take(i + 1);
                assert(taken.drop_last() =~= self.api_keys@.take(i as int));
                assert(taken.last() == e);
                assert(body@ =~= before + entry_bytes(e, api_version));
            }
            i = i + 1;
        }
        assert(self.api_keys@.take(n as int) =~= self.api_keys@);
        if api_version >= THROTTLE_TIME_VERSION {
            put_u32(&mut body, self.throttle_time_ms);
        }
        if compact {
            put_u8(&mut body, 0);
        }
        assert(body@ =~= self.body(api_version));
        let len = body.len();
        if len > MAX_U32_FIELD {
            return Err(CodecError::SerializationFailure);
        }
        let mut response: Vec<u8> = Vec::new();
        put_u32(&mut response, len as u32);
        response.append(&mut body);
        assert(response@ =~= framed(self.body(api_version)));
        Ok(response)
    }
}

/// Encodes the ApiVersions response to a request of version
/// `requested_version` carrying `correlation_id`, advertising `registry`.
pub fn encode(correlation_id: u32, requested_version: u16, registry: &[ApiKeyInfo]) -> (r: Result<
    Vec<u8>,
    CodecError,
>)
    ensures
        r is Ok <==> encodable(registry@.len(), requested_version),
        r matches Ok(bytes) ==> bytes@ == encoded(correlation_id, requested_version, registry@),
        r matches Err(e) ==> e == CodecError::SerializationFailure,
{
    let response = ApiVersionResponse::with_registry(
        correlation_id,
        requested_version,
        slice_to_vec(registry),
    );
    response.serialize(requested_version)
}

} // verus!
