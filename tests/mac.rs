use rust_ext::{hmac_sha256_base64, MacError};

fn mac(key: &str, data: &str) -> String {
    match hmac_sha256_base64(key, data) {
        Ok(s) => s,
        Err(e) => panic!("unexpected error: {}", e.message()),
    }
}

#[test]
fn mac_known_vector() {
    assert_eq!(
        mac("Jefe", "what do ya want for nothing?"),
        "W9zBRr9gdU5qBCQmCJV1x1oAPwidJzmDnexYuWTsOEM="
    );
}

#[test]
fn mac_empty_key_and_message() {
    assert_eq!(mac("", ""), "thNnmggU2ex3L5XXeMNfxf8Wl8STcVZTxscSFEKSxa0=");
}

#[test]
fn mac_quick_brown_fox() {
    assert_eq!(
        mac("key", "The quick brown fox jumps over the lazy dog"),
        "97yD9DBThCSxMpjmqm+xQ+9NWaFJRhdZl0edvC0aPNg="
    );
}

#[test]
fn mac_non_ascii_text_is_hashed_as_utf8() {
    assert_eq!(
        mac("ключ", "сообщение"),
        "/9UCMywSbAzncDBKZ+VgJ1MLE+XwLx0+h2d4Zesl638="
    );
}

#[test]
fn mac_key_longer_than_block_is_accepted() {
    let key = "k".repeat(100);
    assert_eq!(mac(&key, "msg"), "vVaheCwoMOirxu2GalehIwZh5lC4TGL37jrMxfpa9JE=");
}

#[test]
fn mac_is_deterministic_and_tag_is_32_bytes() {
    let a = mac("secret", "payload");
    let b = mac("secret", "payload");
    assert_eq!(a, b);
    assert_eq!(a.len(), 44);
    assert!(a.ends_with('='));
    assert!(!a.ends_with("=="));
    assert_ne!(a, mac("secret", "payload!"));
    assert_ne!(a, mac("secret!", "payload"));
}

#[test]
fn mac_error_has_a_message() {
    assert!(!MacError::InvalidKey.message().is_empty());
}
