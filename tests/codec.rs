use kafka_codec::{
    default_registry, encode, ApiKeyInfo, ApiVersionResponse, CodecError, ErrorCode, KafkaRequest,
    HEADER_LEN, MAX_SUPPORTED_VERSION,
};

fn key(api_key: u16, min_version: u16, max_version: u16) -> ApiKeyInfo {
    ApiKeyInfo { api_key, min_version, max_version }
}

fn two_keys() -> Vec<ApiKeyInfo> {
    vec![key(18, 0, 4), key(75, 0, 0)]
}

fn leading_u32(bytes: &[u8]) -> u32 {
    u32::from_be_bytes([bytes[0], bytes[1], bytes[2], bytes[3]])
}

#[test]
fn parse_reads_big_endian_fields() {
    let bytes = [0, 0, 0, 0, 0, 0x12, 0, 4, 0, 0, 0, 7];
    let h = KafkaRequest::parse(&bytes).unwrap();
    assert_eq!(
        h,
        KafkaRequest { message_size: 0, api_key: 18, api_version: 4, correlation_id: 7 }
    );
}

#[test]
fn parse_reads_every_byte_of_each_field() {
    let bytes = [0x01, 0x02, 0x03, 0x04, 0xAB, 0xCD, 0x00, 0x03, 0xDE, 0xAD, 0xBE, 0xEF, 0x99];
    let h = KafkaRequest::parse(&bytes).unwrap();
    assert_eq!(h.message_size, 0x0102_0304);
    assert_eq!(h.api_key, 0xABCD);
    assert_eq!(h.api_version, 3);
    assert_eq!(h.correlation_id, 0xDEAD_BEEF);
}

#[test]
fn parse_ignores_message_size_and_trailing_bytes() {
    let mut bytes = vec![0, 0, 0, 99, 0, 18, 0, 2, 0, 0, 1, 0];
    bytes.extend_from_slice(&[1, 2, 3]);
    let h = KafkaRequest::parse(&bytes).unwrap();
    assert_eq!(h.message_size, 99);
    assert_eq!(h.correlation_id, 256);
}

#[test]
fn parse_rejects_short_input() {
    assert_eq!(KafkaRequest::parse(&[]), Err(CodecError::TruncatedInput));
    assert_eq!(KafkaRequest::parse(&[0; 7]), Err(CodecError::TruncatedInput));
    assert_eq!(KafkaRequest::parse(&[0; 8]), Err(CodecError::TruncatedInput));
    assert_eq!(KafkaRequest::parse(&[0; HEADER_LEN - 1]), Err(CodecError::TruncatedInput));
    assert!(KafkaRequest::parse(&[0; HEADER_LEN]).is_ok());
}

#[test]
fn error_code_values() {
    assert_eq!(ErrorCode::NoError.code(), 0);
    assert_eq!(ErrorCode::UnsupportedError.code(), 35);
    assert_eq!(ErrorCode::for_version(0), ErrorCode::NoError);
    assert_eq!(ErrorCode::for_version(MAX_SUPPORTED_VERSION), ErrorCode::NoError);
    assert_eq!(ErrorCode::for_version(5), ErrorCode::UnsupportedError);
}

#[test]
fn supported_versions_give_no_error() {
    for v in 0u16..=4 {
        let out = encode(1, v, &two_keys()).unwrap();
        assert_eq!(&out[8..10], &[0, 0]);
        assert_eq!(ApiVersionResponse::new(1, v).error_code, 0);
    }
}

#[test]
fn other_versions_give_unsupported() {
    for v in [5u16, 6, 17, 1000, u16::MAX] {
        let out = encode(1, v, &two_keys()).unwrap();
        assert_eq!(&out[8..10], &[0, 35]);
        assert_eq!(ApiVersionResponse::new(1, v).error_code, 35);
    }
}

#[test]
fn length_prefix_counts_the_rest() {
    let registries = [vec![], vec![key(1, 2, 3)], two_keys()];
    for reg in registries.iter() {
        for v in [0u16, 1, 2, 3, 4, 5, 300] {
            let out = encode(9, v, reg).unwrap();
            assert_eq!(leading_u32(&out) as usize, out.len() - 4);
        }
    }
}

#[test]
fn count_field_by_version() {
    let v2 = encode(5, 2, &two_keys()).unwrap();
    assert_eq!(&v2[10..14], &[0, 0, 0, 2]);
    let v3 = encode(5, 3, &two_keys()).unwrap();
    assert_eq!(v3[10], 3);
    assert_eq!(&v3[11..13], &[0, 18]);
}

#[test]
fn throttle_time_from_version_one() {
    let v0 = encode(77, 0, &two_keys()).unwrap();
    let v1 = encode(77, 1, &two_keys()).unwrap();
    assert_eq!(v1.len(), v0.len() + 4);
    assert_eq!(&v1[4..v0.len()], &v0[4..]);
    assert_eq!(&v1[v0.len()..], &[0, 0, 0, 0]);
}

#[test]
fn tagged_field_markers_from_version_three() {
    let reg = two_keys();
    let v2 = encode(3, 2, &reg).unwrap();
    let v3 = encode(3, 3, &reg).unwrap();
    assert_eq!(&v2[4..10], &v3[4..10]);
    let e2 = &v2[14..14 + 12];
    let e3 = &v3[11..11 + 14];
    for i in 0..2 {
        assert_eq!(&e3[7 * i..7 * i + 6], &e2[6 * i..6 * i + 6]);
        assert_eq!(e3[7 * i + 6], 0);
    }
    assert_eq!(&v3[25..29], &[0, 0, 0, 0]);
    assert_eq!(v3[29], 0);
    assert_eq!(v3.len(), 30);
    // the count field shrinks by three bytes; two entry markers and the
    // final marker add three
    assert_eq!(v3.len(), v2.len());
}

#[test]
fn api_versions_v4_scenario() {
    let request_bytes = [0, 0, 0, 0, 0, 18, 0, 4, 0, 0, 0, 42];
    let h = KafkaRequest::parse(&request_bytes).unwrap();
    assert_eq!(h.api_key, 18);
    let out = encode(h.correlation_id, h.api_version, &[key(18, 0, 4)]).unwrap();
    let body: Vec<u8> = vec![
        0, 0, 0, 42, // correlation id
        0, 0, // error code
        2, // compact count: one entry
        0, 18, 0, 0, 0, 4, 0, // the entry and its marker
        0, 0, 0, 0, // throttle time
        0, // final marker
    ];
    let mut expected = vec![0, 0, 0, body.len() as u8];
    expected.extend_from_slice(&body);
    assert_eq!(out, expected);
    assert_eq!(out.len(), 23);
}

#[test]
fn api_versions_v0_scenario() {
    let out = encode(42, 0, &[key(18, 0, 4)]).unwrap();
    assert_eq!(out, vec![0, 0, 0, 16, 0, 0, 0, 42, 0, 0, 0, 0, 0, 1, 0, 18, 0, 0, 0, 4]);
}

#[test]
fn encoding_twice_is_identical() {
    for v in [0u16, 2, 3, 4, 9] {
        let a = encode(1234, v, &two_keys()).unwrap();
        let b = encode(1234, v, &two_keys()).unwrap();
        assert_eq!(a, b);
        let r = ApiVersionResponse::new(1234, v);
        assert_eq!(r.serialize(v).unwrap(), r.serialize(v).unwrap());
    }
}

#[test]
fn empty_registry() {
    let v3 = encode(1, 3, &[]).unwrap();
    assert_eq!(v3, vec![0, 0, 0, 12, 0, 0, 0, 1, 0, 0, 1, 0, 0, 0, 0, 0]);
    let v2 = encode(1, 2, &[]).unwrap();
    assert_eq!(v2, vec![0, 0, 0, 14, 0, 0, 0, 1, 0, 0, 0, 0, 0, 0, 0, 0, 0, 0]);
}

#[test]
fn compact_count_wraps_above_254_entries() {
    let big: Vec<ApiKeyInfo> = (0..255u16).map(|k| key(k, 0, 1)).collect();
    let out = encode(1, 3, &big).unwrap();
    assert_eq!(out[10], 0);
    assert_eq!(leading_u32(&out) as usize, out.len() - 4);
    assert_eq!(out.len(), 4 + 4 + 2 + 1 + 7 * 255 + 4 + 1);
    let bigger: Vec<ApiKeyInfo> = (0..300u16).map(|k| key(k, 0, 1)).collect();
    let out = encode(1, 4, &bigger).unwrap();
    assert_eq!(out[10], 45);
    assert_eq!(leading_u32(&out) as usize, out.len() - 4);
    let out = encode(1, 2, &big).unwrap();
    assert_eq!(&out[10..14], &[0, 0, 0, 255]);
    let fits: Vec<ApiKeyInfo> = (0..254u16).map(|k| key(k, 0, 1)).collect();
    let out = encode(1, 3, &fits).unwrap();
    assert_eq!(out[10], 255);
    assert_eq!(leading_u32(&out) as usize, out.len() - 4);
}

#[test]
fn version_zero_body_length() {
    for n in [0u16, 1, 2, 7] {
        let reg: Vec<ApiKeyInfo> = (0..n).map(|k| key(k, 0, 0)).collect();
        let out = encode(5, 0, &reg).unwrap();
        assert_eq!(out.len(), 14 + 6 * n as usize);
        assert_eq!(leading_u32(&out), 10 + 6 * n as u32);
    }
}

#[test]
fn new_advertises_default_registry() {
    let reg = default_registry();
    assert_eq!(reg, two_keys());
    let r = ApiVersionResponse::new(8, 3);
    assert_eq!(r.correlation_id, 8);
    assert_eq!(r.api_keys, two_keys());
    assert_eq!(r.throttle_time_ms, 0);
    assert_eq!(r.serialize(3).unwrap(), encode(8, 3, &reg).unwrap());
}

#[test]
fn with_registry_keeps_entries() {
    let r = ApiVersionResponse::with_registry(3, 9, vec![key(1, 1, 2)]);
    assert_eq!(r.error_code, 35);
    assert_eq!(r.api_keys, vec![key(1, 1, 2)]);
    let out = r.serialize(1).unwrap();
    assert_eq!(out, vec![0, 0, 0, 20, 0, 0, 0, 3, 0, 35, 0, 0, 0, 1, 0, 1, 0, 1, 0, 2, 0, 0, 0, 0]);
}
