use client_decision_receipt::error::AppError;
use client_decision_receipt::seal::{seal, to_hex, token, token_hash, token_key, valid_token};

#[test]
fn seal_is_lower_hex_sha256() {
    assert_eq!(seal(""), "e3b0c44298fc1c149afbf4c8996fb92427ae41e4649b934ca495991b7852b855");
    assert_eq!(seal("abc"), "ba7816bf8f01cfea414140de5dae2223b00361a396177a9cb410ff61f20015ad");
    assert_eq!(seal("héllo"), "3c48591d8d098a4538f5e013dfcf406e948eac4d3277b10bf614e295d6068179");
}

#[test]
fn hex_writes_two_lower_digits_per_byte() {
    assert_eq!(to_hex(&[0x00, 0x0f, 0xa0, 0xff]), "000fa0ff");
    assert_eq!(to_hex(&[]), "");
}

#[test]
fn token_hash_is_hmac_sha256_in_url_safe_base64() {
    assert_eq!(token_hash(b"Jefe", "what do ya want for nothing?"), "W9zBRr9gdU5qBCQmCJV1x1oAPwidJzmDnexYuWTsOEM");
    assert_eq!(
        token_hash(&[7u8; 32], "abcdefghijklmnopqrstuvwxyzABCDEF"),
        "odTAM76DSdeuxSdDnueQJMtd2O1WlQsKh_8hjSJ2W98"
    );
    assert_ne!(token_hash(&[7u8; 32], "a"), token_hash(&[8u8; 32], "a"));
}

#[test]
fn issued_tokens_are_accepted() {
    for _ in 0..50 {
        let t = token();
        assert_eq!(t.len(), 32);
        assert!(valid_token(&t).is_ok());
    }
    assert_ne!(token(), token());
}

#[test]
fn malformed_tokens_are_unknown_links() {
    let ok = "abcdefghijklmnopqrstuvwxyz-_0123";
    assert!(valid_token(ok).is_ok());
    for bad in [
        "",
        "abcdefghijklmnopqrstuvwxyz-_012",
        "abcdefghijklmnopqrstuvwxyz-_01234",
        "abcdefghijklmnopqrstuvwxyz-_01+3",
        "abcdefghijklmnopqrstuvwxyz-_01é",
    ] {
        assert!(matches!(valid_token(bad), Err(AppError::NotFound)), "{bad}");
    }
}

#[test]
fn token_key_hashes_only_valid_tokens() {
    let secret = [7u8; 32];
    let t = "abcdefghijklmnopqrstuvwxyzABCDEF";
    assert_eq!(token_key(&secret, t).unwrap(), token_hash(&secret, t));
    assert!(matches!(token_key(&secret, "short"), Err(AppError::NotFound)));
}
