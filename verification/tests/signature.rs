use solidgate_connector::{generate_signature, verify_signature};

#[test]
fn signature_is_deterministic() {
    let a = generate_signature("merchant", "secret", b"payload");
    let b = generate_signature("merchant", "secret", b"payload");
    assert_eq!(a, b);
}

#[test]
fn signature_differs_for_different_inputs() {
    let a = generate_signature("merchant", "secret", b"payload1");
    let b = generate_signature("merchant", "secret", b"payload2");
    assert_ne!(a, b);
}

#[test]
fn verify_accepts_matching_signature() {
    let sig = generate_signature("merchant", "secret", b"body");
    assert!(verify_signature("merchant", "secret", b"body", &sig));
}

#[test]
fn verify_rejects_tampered_body() {
    let sig = generate_signature("merchant", "secret", b"body");
    assert!(!verify_signature("merchant", "secret", b"different", &sig));
}

#[test]
fn signature_known_value() {
    // base64(hex(HMAC-SHA512("secret", "merchant" + "payload" + "merchant")))
    let sig = generate_signature("merchant", "secret", b"payload");
    assert_eq!(
        sig,
        "YmRhNTVjZjg5MDQxYWU1M2FjMzA0MzdiZDEzYWE4ZmU0ODlkM2VmMjhjZmJmY2M4NDZmOGFlMzM5MmFmODQ4NTA3ZWI3ZjU4ZGQ2MTM1Njc5YWQzMmZhYzFlMWU4NmQyMzc2NzFiZmQ3M2NjOTEyNDBlYmFhOWIxZjVhODU2MDM="
    );
    assert_eq!(sig.len(), 172);
}

#[test]
fn signature_of_empty_body() {
    let sig = generate_signature("api_pk_123", "api_sk_456", b"");
    assert_eq!(
        sig,
        "NTRmOGZlODM0MzAyZTFiN2I0ZGRjOTY2MDc3Mzg4ZDRkMjE4ZmI3NjViZjliNWZhNmU3YWU0NGM5ZGEzMzZmYzk0MmU1OWE1ZjlhY2FiMWZjMGJiODkyN2JjN2U5ZDVhZDA0ZmNlMjVkZmUxOGIzNDEzMzc2M2M3NzFlYTNmZTE="
    );
}

#[test]
fn signature_depends_on_secret_key() {
    let a = generate_signature("merchant", "secret", b"payload");
    let b = generate_signature("merchant", "other", b"payload");
    assert_ne!(a, b);
}

#[test]
fn verify_rejects_other_secret_key() {
    let sig = generate_signature("merchant", "secret", b"body");
    assert!(!verify_signature("merchant", "other", b"body", &sig));
}

#[test]
fn verify_rejects_shorter_and_longer_signatures() {
    let sig = generate_signature("merchant", "secret", b"body");
    assert!(!verify_signature("merchant", "secret", b"body", &sig[..sig.len() - 1]));
    let longer = format!("{sig}=");
    assert!(!verify_signature("merchant", "secret", b"body", &longer));
    assert!(!verify_signature("merchant", "secret", b"body", ""));
}

#[test]
fn verify_rejects_one_changed_character() {
    let sig = generate_signature("merchant", "secret", b"body");
    let mut chars: Vec<char> = sig.chars().collect();
    chars[100] = if chars[100] == 'A' { 'B' } else { 'A' };
    let changed: String = chars.into_iter().collect();
    assert!(!verify_signature("merchant", "secret", b"body", &changed));
}

#[test]
fn verify_rejects_non_ascii_of_same_byte_length() {
    let sig = generate_signature("merchant", "secret", b"body");
    // 86 two-byte characters: as many bytes as the signature, fewer characters.
    let other: String = std::iter::repeat('é').take(86).collect();
    assert_eq!(other.len(), sig.len());
    assert!(!verify_signature("merchant", "secret", b"body", &other));
}

#[test]
fn signature_has_fixed_shape() {
    for (pk, sk, data) in [("m", "s", &b""[..]), ("merchant", "secret", &b"payload"[..]), ("ключ", "секрет", &[0u8, 255, 7][..])] {
        let sig = generate_signature(pk, sk, data);
        assert_eq!(sig.len(), 172);
        assert!(sig.is_ascii());
        assert!(sig.ends_with('='));
        assert!(!sig[..171].contains('='));
    }
}
