use solana_http::address::parse_address;
use solana_http::codec::{from_base58, from_base64, to_base58, to_base64};
use solana_http::error::ErrorKind;

const B58: &str = "123456789ABCDEFGHJKLMNPQRSTUVWXYZabcdefghijkmnopqrstuvwxyz";
const B64: &str = "ABCDEFGHIJKLMNOPQRSTUVWXYZabcdefghijklmnopqrstuvwxyz0123456789+/=";

#[test]
fn base58_known_value() {
    assert_eq!(to_base58(b"hello world"), "StV1DL6CwTryKyV");
    assert_eq!(to_base58(&[0, 0, 1]), "112");
    assert_eq!(to_base58(&[]), "");
}

#[test]
fn base64_known_value() {
    assert_eq!(to_base64(b"hello"), "aGVsbG8=");
    assert_eq!(to_base64(&[]), "");
}

#[test]
fn base58_round_trip() {
    let samples: Vec<Vec<u8>> = vec![
        vec![],
        vec![0],
        vec![0, 0, 0, 7],
        vec![255; 40],
        (0u8..=255).collect(),
    ];
    for bytes in samples {
        let text = to_base58(&bytes);
        assert!(text.chars().all(|c| B58.contains(c)));
        assert_eq!(from_base58(&text).unwrap(), bytes);
    }
}

#[test]
fn base64_round_trip() {
    let samples: Vec<Vec<u8>> = vec![vec![], vec![1], vec![1, 2], vec![1, 2, 3], (0u8..=255).collect()];
    for bytes in samples {
        let text = to_base64(&bytes);
        assert!(text.chars().all(|c| B64.contains(c)));
        assert_eq!(from_base64(&text).unwrap(), bytes);
    }
}

#[test]
fn base58_rejects_outside_alphabet() {
    for bad in ["0abc", "Oabc", "Iabc", "labc", "ab c", "é"] {
        assert_eq!(from_base58(bad).unwrap_err().0, ErrorKind::InvalidEncoding);
    }
}

#[test]
fn base64_rejects_malformed_text() {
    for bad in ["a", "aGVsbG8", "aGVsbG9=", "a*==", "aGVs bG8="] {
        assert_eq!(from_base64(bad).unwrap_err().0, ErrorKind::InvalidEncoding);
    }
}

#[test]
fn address_parses_32_bytes_exactly() {
    let a = parse_address("11111111111111111111111111111111").unwrap();
    assert_eq!(a.bytes, [0u8; 32]);
    let token = parse_address("TokenkegQfeZyiNwAJbNbGKPFXCWuBvf9Ss623VQ5DA").unwrap();
    assert_eq!(token.to_base58(), "TokenkegQfeZyiNwAJbNbGKPFXCWuBvf9Ss623VQ5DA");
    assert_eq!(token.bytes[0], 6);
    assert_eq!(token.bytes[31], 169);
}

#[test]
fn address_round_trips_through_text() {
    let bytes: [u8; 32] = core::array::from_fn(|i| (i * 7) as u8);
    let text = to_base58(&bytes);
    assert_eq!(parse_address(&text).unwrap().bytes, bytes);
}

#[test]
fn address_rejects_wrong_length_and_alphabet() {
    let short = to_base58(&[9u8; 31]);
    let long = to_base58(&[9u8; 33]);
    for bad in [short.as_str(), long.as_str(), "", "0000000000000000000000000000000O", "not an address"] {
        assert_eq!(parse_address(bad).unwrap_err().0, ErrorKind::InvalidAddress);
    }
}
