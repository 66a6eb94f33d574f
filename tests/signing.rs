use solana_http::codec::{from_base58, from_base64, to_base58, to_base64};
use solana_http::error::ErrorKind;
use solana_http::handlers::{generate_keypair, sign_message, verify_message};
use solana_http::models::{ApiResponse, SignMessageRequest, VerifyMessageRequest};
use solana_http::signing::{sign, verify};

fn sign_text(message: &str, secret: &str) -> Result<solana_http::models::SignMessageResponse, solana_http::error::AppError> {
    sign_message(SignMessageRequest { message: message.to_string(), secret: secret.to_string() })
}

fn verify_text(message: &str, signature: &str, pubkey: &str) -> Result<bool, ErrorKind> {
    verify_message(VerifyMessageRequest {
        message: message.to_string(),
        signature: signature.to_string(),
        pubkey: pubkey.to_string(),
    })
    .map(|r| r.valid)
    .map_err(|e| e.0)
}

#[test]
fn generated_keypair_shape() {
    let k = generate_keypair();
    let secret = from_base58(&k.secret).unwrap();
    assert_eq!(secret.len(), 64);
    assert_eq!(to_base58(&secret[32..]), k.pubkey);
}

#[test]
fn sign_then_verify_hello() {
    let k = generate_keypair();
    let signed = sign_text("hello", &k.secret).unwrap();
    assert_eq!(signed.public_key, k.pubkey);
    assert_eq!(signed.message, "hello");
    assert_eq!(verify_text("hello", &signed.signature, &k.pubkey), Ok(true));
    let sig = from_base64(&signed.signature).unwrap();
    assert_eq!(sig.len(), 64);
    for bit in 0..512 {
        let mut flipped = sig.clone();
        flipped[bit / 8] ^= 1 << (bit % 8);
        assert_eq!(verify_text("hello", &to_base64(&flipped), &k.pubkey), Ok(false));
    }
}

#[test]
fn signing_is_deterministic() {
    let k = generate_keypair();
    let a = sign_text("same message", &k.secret).unwrap();
    let b = sign_text("same message", &k.secret).unwrap();
    assert_eq!(a.signature, b.signature);
    let c = sign_text("other message", &k.secret).unwrap();
    assert_ne!(a.signature, c.signature);
}

#[test]
fn signature_fails_under_other_key_or_message() {
    let k1 = generate_keypair();
    let k2 = generate_keypair();
    assert_ne!(k1.pubkey, k2.pubkey);
    for m in ["", "hello", "a longer message with ümlauts"] {
        let s = sign_text(m, &k1.secret).unwrap();
        assert_eq!(verify_text(m, &s.signature, &k1.pubkey), Ok(true));
        assert_eq!(verify_text(m, &s.signature, &k2.pubkey), Ok(false));
        assert_eq!(verify_text("tampered", &s.signature, &k1.pubkey), Ok(false));
    }
}

#[test]
fn bytes_level_sign_and_verify() {
    let k = generate_keypair();
    let secret = from_base58(&k.secret).unwrap();
    let sig = sign(b"bytes", &secret).unwrap();
    assert_eq!(verify(&sig, b"bytes", &secret[32..]), Ok(true));
    assert_eq!(verify(&sig[..63], b"bytes", &secret[32..]).unwrap_err().0, ErrorKind::InvalidInputLength);
    assert_eq!(verify(&sig, b"bytes", &secret[33..]).unwrap_err().0, ErrorKind::InvalidInputLength);
    assert_eq!(sign(b"bytes", &secret[..63]).unwrap_err().0, ErrorKind::InvalidKeyMaterial);
}

#[test]
fn secret_errors() {
    assert_eq!(sign_text("m", "not-base58!").unwrap_err().0, ErrorKind::InvalidEncoding);
    assert_eq!(sign_text("m", &to_base58(&[1u8; 32])).unwrap_err().0, ErrorKind::InvalidKeyMaterial);
    let k1 = from_base58(&generate_keypair().secret).unwrap();
    let k2 = from_base58(&generate_keypair().secret).unwrap();
    let mut mixed = k1[..32].to_vec();
    mixed.extend_from_slice(&k2[32..]);
    assert_eq!(sign_text("m", &to_base58(&mixed)).unwrap_err().0, ErrorKind::InvalidKeyMaterial);
}

#[test]
fn verify_errors() {
    let k = generate_keypair();
    let s = sign_text("m", &k.secret).unwrap();
    assert_eq!(verify_text("m", &s.signature, "bad key"), Err(ErrorKind::InvalidAddress));
    assert_eq!(verify_text("m", "***", &k.pubkey), Err(ErrorKind::InvalidEncoding));
    assert_eq!(verify_text("m", &to_base64(&[0u8; 63]), &k.pubkey), Err(ErrorKind::InvalidInputLength));
    let echoed = verify_message(VerifyMessageRequest {
        message: "m".to_string(),
        signature: to_base64(&[0u8; 64]),
        pubkey: k.pubkey.clone(),
    })
    .unwrap();
    assert!(!echoed.valid);
    assert_eq!(echoed.message, "m");
    assert_eq!(echoed.pubkey, k.pubkey);
}

#[test]
fn response_envelopes() {
    let ok = ApiResponse::success(5u8);
    assert!(ok.success);
    assert_eq!(ok.data, Some(5));
    assert_eq!(ok.error, None);
    let err = ApiResponse::<u8>::error("boom".to_string());
    assert!(!err.success);
    assert_eq!(err.data, None);
    assert_eq!(err.error, Some("boom".to_string()));
}
