use base64::Engine;
use hub_link::etf::{encode_integer, encode_token_term};
use hub_link::shared_secret::SharedSecretAuth;

fn decode_segment(segment: &str) -> Vec<u8> {
    base64::engine::general_purpose::URL_SAFE_NO_PAD.decode(segment).unwrap()
}

#[test]
fn algorithm_string() {
    let auth = SharedSecretAuth::new("key".to_string(), "secret".to_string());
    assert_eq!(auth.algorithm(), "NH1-HMAC-sha256-1000-32");
}

#[test]
fn generates_headers() {
    let auth = SharedSecretAuth::new("device-key-1".to_string(), "my-secret".to_string());
    let headers = auth.auth_headers("device-serial-123").unwrap();

    assert_eq!(headers.len(), 4);
    assert_eq!(headers[0].0, "x-nh-alg");
    assert_eq!(headers[0].1, "NH1-HMAC-sha256-1000-32");
    assert_eq!(headers[1].0, "x-nh-key");
    assert_eq!(headers[1].1, "device-key-1");
    assert_eq!(headers[2].0, "x-nh-time");
    assert_eq!(headers[3].0, "x-nh-signature");
    let sig = &headers[3].1;
    assert!(sig.starts_with("SFMyNTY."));
    let parts: Vec<&str> = sig.split('.').collect();
    assert_eq!(parts.len(), 3);
}

#[test]
fn deterministic_with_same_timestamp() {
    let auth = SharedSecretAuth::new("key".to_string(), "secret".to_string());
    let h1 = auth.auth_headers_at("device-1", 1700000000).unwrap();
    let h2 = auth.auth_headers_at("device-1", 1700000000).unwrap();
    assert_eq!(h1[3].1, h2[3].1);
}

#[test]
fn different_timestamp_different_signature() {
    let auth = SharedSecretAuth::new("key".to_string(), "secret".to_string());
    let h1 = auth.auth_headers_at("device-1", 1700000000).unwrap();
    let h2 = auth.auth_headers_at("device-1", 1700000001).unwrap();
    assert_ne!(h1[3].1, h2[3].1);
}

#[test]
fn different_identifier_different_signature() {
    let auth = SharedSecretAuth::new("key".to_string(), "secret".to_string());
    let h1 = auth.auth_headers_at("device-1", 1700000000).unwrap();
    let h2 = auth.auth_headers_at("device-2", 1700000000).unwrap();
    assert_ne!(h1[3].1, h2[3].1);
}

#[test]
fn different_secret_different_signature() {
    let auth1 = SharedSecretAuth::new("key".to_string(), "secret-1".to_string());
    let auth2 = SharedSecretAuth::new("key".to_string(), "secret-2".to_string());
    let h1 = auth1.auth_headers_at("device-1", 1700000000).unwrap();
    let h2 = auth2.auth_headers_at("device-1", 1700000000).unwrap();
    assert_ne!(h1[3].1, h2[3].1);
}

#[test]
fn token_payload_decodable() {
    let auth = SharedSecretAuth::new("key".to_string(), "secret".to_string());
    let headers = auth.auth_headers_at("test-serial", 1700000000).unwrap();
    let token = &headers[3].1;
    let parts: Vec<&str> = token.split('.').collect();
    let payload_bytes = decode_segment(parts[1]);
    assert_eq!(payload_bytes[0], 131);
    assert_eq!(payload_bytes[1], 104);
    assert_eq!(payload_bytes[2], 3);
    assert_eq!(payload_bytes[3], 109);
}

#[test]
fn encode_small_integer() {
    let mut buf = Vec::new();
    encode_integer(&mut buf, 42);
    assert_eq!(buf, vec![97, 42]);
}

#[test]
fn encode_32bit_integer() {
    let mut buf = Vec::new();
    encode_integer(&mut buf, 1700000000);
    assert_eq!(buf[0], 98);
    let value = i32::from_be_bytes([buf[1], buf[2], buf[3], buf[4]]);
    assert_eq!(value, 1700000000);
}

#[test]
fn encode_large_integer() {
    let mut buf = Vec::new();
    encode_integer(&mut buf, 1700000000000);
    assert_eq!(buf[0], 110);
    assert_eq!(buf[2], 0);
}

#[test]
fn term_binary_structure() {
    let term = encode_token_term("hello", 1700000000000, 86400);
    assert_eq!(term[0], 131);
    assert_eq!(term[1], 104);
    assert_eq!(term[2], 3);
    assert_eq!(term[3], 109);
    assert_eq!(&term[4..8], &5u32.to_be_bytes());
    assert_eq!(&term[8..13], b"hello");
    assert_eq!(term[13], 110);
}

#[test]
fn integer_form_boundaries() {
    let mut b = Vec::new();
    encode_integer(&mut b, 255);
    assert_eq!(b, vec![97, 255]);
    let mut b = Vec::new();
    encode_integer(&mut b, 256);
    assert_eq!(b, vec![98, 0, 0, 1, 0]);
    let mut b = Vec::new();
    encode_integer(&mut b, i32::MAX as u128);
    assert_eq!(b, vec![98, 0x7f, 0xff, 0xff, 0xff]);
    let mut b = Vec::new();
    encode_integer(&mut b, i32::MAX as u128 + 1);
    assert_eq!(b, vec![110, 4, 0, 0, 0, 0, 0x80]);
    let mut b = Vec::new();
    encode_integer(&mut b, 0);
    assert_eq!(b, vec![97, 0]);
}

#[test]
fn small_big_of_millisecond_timestamp() {
    let term = encode_token_term("hello", 1700000000000, 86400);
    // 1700000000000 = 0x18B_CFE5_6800, six little-endian bytes.
    assert_eq!(&term[13..22], &[110, 6, 0, 0x00, 0x68, 0xe5, 0xcf, 0x8b, 0x01]);
    assert_eq!(&term[22..], &[98, 0, 1, 0x51, 0x80]);
    assert_eq!(term.len(), 27);
}

#[test]
fn time_header_and_signed_at_follow_timestamp() {
    let auth = SharedSecretAuth::new("key".to_string(), "secret".to_string());
    let h = auth.auth_headers_at("d", 1700000000).unwrap();
    assert_eq!(h[2].1, "1700000000");
    let token = &h[3].1;
    let parts: Vec<&str> = token.split('.').collect();
    assert_eq!(parts[0], "SFMyNTY");
    let term = decode_segment(parts[1]);
    assert_eq!(term, encode_token_term("d", 1700000000000, 86400));
}

#[test]
fn changing_time_changes_only_time_and_signature() {
    let auth = SharedSecretAuth::new("key".to_string(), "secret".to_string());
    let a = auth.auth_headers_at("d", 1700000000).unwrap();
    let b = auth.auth_headers_at("d", 1700000001).unwrap();
    assert_eq!(a[0], b[0]);
    assert_eq!(a[1], b[1]);
    assert_ne!(a[2].1, b[2].1);
    assert_eq!(b[2].1, "1700000001");
    assert_ne!(a[3].1, b[3].1);
    let sig_a: Vec<&str> = a[3].1.split('.').collect();
    let sig_b: Vec<&str> = b[3].1.split('.').collect();
    assert_ne!(sig_a[2], sig_b[2]);
    assert_eq!(decode_segment(sig_a[2]).len(), 32);
}

#[test]
fn payload_segment_is_encoded_not_raw() {
    let auth = SharedSecretAuth::new("k".to_string(), "s".to_string());
    let h = auth.auth_headers_at("id", 5).unwrap();
    let parts: Vec<&str> = h[3].1.split('.').collect();
    let raw = encode_token_term("id", 5000, 86400);
    assert_ne!(parts[1].as_bytes(), &raw[..]);
    assert_eq!(decode_segment(parts[1]), raw);
}

#[test]
fn auth_headers_at_zero() {
    let auth = SharedSecretAuth::new("k".to_string(), "s".to_string());
    let h = auth.auth_headers_at("id", 0).unwrap();
    assert_eq!(h[2].1, "0");
    let parts: Vec<&str> = h[3].1.split('.').collect();
    assert_eq!(decode_segment(parts[1]), vec![131, 104, 3, 109, 0, 0, 0, 2, b'i', b'd', 97, 0, 98, 0, 1, 0x51, 0x80]);
}
