//! Properties of the encoding that relate several versions, several calls or
//! several fields of one response.

use crate::response::{
    body_len, encodable, encoded, entries_bytes, entry_bytes, entry_len, framed, lemma_body_len,
    lemma_entries_len, ErrorCode,
    response_body, ApiKeyInfo,
};
use crate::wire::{be16, be16_value, be32, be32_value, lemma_be16_inverse, lemma_be32_inverse};
use vstd::prelude::*;

verus! {

/// A framed body starts with its own length: the leading 32-bit field is the
/// number of bytes that follow it, and those bytes are the body.
pub proof fn lemma_framed_length(body: Seq<u8>)
    requires
        body.len() <= 0xFFFF_FFFF,
    ensures
        framed(body).len() == body.len() + 4,
        be32_value(framed(body), 0) == framed(body).len() - 4,
        framed(body).subrange(4, framed(body).len() as int) == body,
{
    let n = body.len() as u32;
    lemma_be32_inverse(n);
    let f = framed(body);
    assert(be32_value(f, 0) == be32_value(be32(n), 0));
    assert(f.subrange(4, f.len() as int) =~= body);
}

/// Every response that can be sent leads with a length field equal to the
/// exact number of bytes after it.
pub proof fn lemma_length_prefix(correlation_id: u32, v: u16, keys: Seq<ApiKeyInfo>)
    requires
        encodable(keys.len(), v),
    ensures
        encoded(correlation_id, v, keys).len() >= 4,
        be32_value(encoded(correlation_id, v, keys), 0) == encoded(correlation_id, v, keys).len()
            - 4,
        encoded(correlation_id, v, keys).len() == body_len(keys.len(), v) + 4,
{
    let body = response_body(correlation_id, v, keys);
    lemma_body_len(correlation_id, ErrorCode::for_version(v).code(), keys, 0, v);
    lemma_framed_length(body);
}

/// The error code field (after the length and the correlation id) is 0 for a
/// requested version from 0 to 4 and 35 for every other version.
pub proof fn lemma_error_code_field(correlation_id: u32, v: u16, keys: Seq<ApiKeyInfo>)
    ensures
        encoded(correlation_id, v, keys).len() >= 10,
        encoded(correlation_id, v, keys).subrange(8, 10) == be16(
            if v <= 4 {
                0u16
            } else {
                35u16
            },
        ),
        be16_value(encoded(correlation_id, v, keys), 8) == if v <= 4 {
            0int
        } else {
            35int
        },
{
    let code: u16 = if v <= 4 {
        0u16
    } else {
        35u16
    };
    let e = encoded(correlation_id, v, keys);
    assert(e.subrange(8, 10) =~= be16(code));
    lemma_be16_inverse(code);
    assert(be16_value(e, 8) == be16_value(be16(code), 0));
}

/// The count of entries follows the error code: from version 3 on it is one
/// byte holding the count plus one, modulo 256; before, a 32-bit field
/// holding the count.
pub proof fn lemma_count_field(correlation_id: u32, v: u16, keys: Seq<ApiKeyInfo>)
    requires
        encodable(keys.len(), v),
    ensures
        v >= 3 ==> encoded(correlation_id, v, keys)[10] == (keys.len() + 1) % 256,
        v < 3 ==> be32_value(encoded(correlation_id, v, keys), 10) == keys.len(),
{
    let e = encoded(correlation_id, v, keys);
    lemma_length_prefix(correlation_id, v, keys);
    if v < 3 {
        lemma_entries_len(keys, v);
        assert(keys.len() * entry_len(v) >= keys.len()) by (nonlinear_arith)
            requires
                entry_len(v) >= 1,
        ;
        let n = keys.len() as u32;
        assert(n == keys.len());
        lemma_be32_inverse(n);
        assert(be32_value(e, 10) == be32_value(be32(n), 0));
    }
}

/// Below version 3 an entry is the same whatever the version.
proof fn lemma_entries_below_compact(es: Seq<ApiKeyInfo>, v: u16, w: u16)
    requires
        v < 3,
        w < 3,
    ensures
        entries_bytes(es, v) == entries_bytes(es, w),
    decreases es.len(),
{
    if es.len() > 0 {
        lemma_entries_below_compact(es.drop_last(), v, w);
    }
}

/// The entry at index `i` takes bytes `i * entry_len(v)` up to the next
/// entry's start.
pub proof fn lemma_entry_at(es: Seq<ApiKeyInfo>, v: u16, i: int)
    requires
        0 <= i < es.len(),
    ensures
        entries_bytes(es, v).subrange(i * entry_len(v), (i + 1) * entry_len(v)) == entry_bytes(
            es[i],
            v,
        ),
    decreases es.len(),
{
    let k = entry_len(v) as int;
    let all = entries_bytes(es, v);
    let prev = entries_bytes(es.drop_last(), v);
    lemma_entries_len(es.drop_last(), v);
    assert((i + 1) * k == i * k + k) by (nonlinear_arith);
    if i < es.len() - 1 {
        lemma_entry_at(es.drop_last(), v, i);
        assert((i + 1) * k <= (es.len() - 1) * k) by (nonlinear_arith)
            requires
                i + 1 <= es.len() - 1,
                k >= 0,
        ;
        assert(all.subrange(i * k, (i + 1) * k) =~= prev.subrange(i * k, (i + 1) * k));
    } else {
        assert(all.subrange(i * k, (i + 1) * k) =~= entry_bytes(es.last(), v));
    }
}

/// Version 0 has no throttle time: its body is the correlation id, the error
/// code, the 32-bit count and the entries, `10 + 6 * n` bytes in all. Version
/// 1 adds exactly the throttle time to it: four zero bytes at the end.
pub proof fn lemma_throttle_time(correlation_id: u32, keys: Seq<ApiKeyInfo>)
    ensures
        response_body(correlation_id, 0, keys) == be32(correlation_id) + be16(0) + be32(
            #[verifier::truncate]
            (keys.len() as u32),
        ) + entries_bytes(keys, 0),
        response_body(correlation_id, 0, keys).len() == 10 + 6 * keys.len(),
        encodable(keys.len(), 0) ==> {
            &&& encoded(correlation_id, 0, keys).len() == 14 + 6 * keys.len()
            &&& be32_value(encoded(correlation_id, 0, keys), 0) == 10 + 6 * keys.len()
        },
        response_body(correlation_id, 1, keys) == response_body(correlation_id, 0, keys) + seq![
            0u8,
            0u8,
            0u8,
            0u8,
        ],
{
    lemma_entries_below_compact(keys, 0, 1);
    lemma_entries_len(keys, 0);
    assert(keys.len() * entry_len(0) == 6 * keys.len());
    if encodable(keys.len(), 0) {
        lemma_length_prefix(correlation_id, 0, keys);
    }
    assert(response_body(correlation_id, 0, keys) =~= be32(correlation_id) + be16(0) + be32(
        #[verifier::truncate]
        (keys.len() as u32),
    ) + entries_bytes(keys, 0));
    assert(response_body(correlation_id, 1, keys) =~= response_body(correlation_id, 0, keys)
        + seq![0u8, 0u8, 0u8, 0u8]);
}

/// Version 3 differs from version 2 in the count field, in one zero byte
/// after each entry, and in one zero byte at the end of the body.
pub proof fn lemma_tagged_fields(correlation_id: u32, keys: Seq<ApiKeyInfo>)
    ensures
        response_body(correlation_id, 2, keys) == be32(correlation_id) + be16(0) + be32(
            #[verifier::truncate]
            (keys.len() as u32),
        ) + entries_bytes(keys, 2) + be32(0),
        response_body(correlation_id, 3, keys) == be32(correlation_id) + be16(0) + seq![
            ((keys.len() + 1) % 256) as u8,
        ] + entries_bytes(keys, 3) + be32(0) + seq![0u8],
        entries_bytes(keys, 3).len() == entries_bytes(keys, 2).len() + keys.len(),
        forall|i: int|
            0 <= i < keys.len() ==> #[trigger] entries_bytes(keys, 3).subrange(7 * i, 7 * i + 7)
                == entries_bytes(keys, 2).subrange(6 * i, 6 * i + 6).push(0u8),
{
    lemma_entries_len(keys, 2);
    lemma_entries_len(keys, 3);
    assert forall|i: int| 0 <= i < keys.len() implies #[trigger] entries_bytes(keys, 3).subrange(
        7 * i,
        7 * i + 7,
    ) == entries_bytes(keys, 2).subrange(6 * i, 6 * i + 6).push(0u8) by {
        lemma_entry_at(keys, 2, i);
        lemma_entry_at(keys, 3, i);
        assert(i * 7 == 7 * i && (i + 1) * 7 == 7 * i + 7);
        assert(i * 6 == 6 * i && (i + 1) * 6 == 6 * i + 6);
        assert(entry_bytes(keys[i], 3) =~= entry_bytes(keys[i], 2).push(0u8));
    }
}

/// Encoding depends on the correlation id, the version and the registry's
/// contents alone: equal inputs give byte-identical responses.
pub proof fn lemma_encoding_deterministic(
    correlation_id: u32,
    v: u16,
    a: Seq<ApiKeyInfo>,
    b: Seq<ApiKeyInfo>,
)
    requires
        a == b,
    ensures
        encoded(correlation_id, v, a) == encoded(correlation_id, v, b),
{
}

} // verus!
