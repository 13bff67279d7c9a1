use bitfinex::auth::{auth_headers, sign_payload, signature_input, NonceGenerator};

#[test]
fn sign_is_deterministic_on_equal_tuples() {
    let input = signature_input("/v2/auth/r/wallets", "1234567890123456", "{}");
    let s1 = sign_payload(b"test-secret", input.as_bytes());
    let s2 = sign_payload(b"test-secret", input.as_bytes());
    assert_eq!(s1, s2);
}

#[test]
fn sign_differs_for_distinct_nonces() {
    let i1 = signature_input("/v2/auth/r/wallets", "1234567890123456", "{}");
    let i2 = signature_input("/v2/auth/r/wallets", "1234567890123457", "{}");
    let s1 = sign_payload(b"test-secret", i1.as_bytes());
    let s2 = sign_payload(b"test-secret", i2.as_bytes());
    assert_ne!(s1, s2);
}

#[test]
fn sign_known_answer_wallets_call() {
    let input = signature_input("/v2/auth/r/wallets", "1234567890123456", "{}");
    assert_eq!(input, "/api/v2/auth/r/wallets1234567890123456{}");
    let sig = sign_payload(b"SECRET_KEY", input.as_bytes());
    assert_eq!(
        sig,
        "4f758e30d656a2f5cafb2a06f39847e39520e3bde05194b20b060ba628fd72be05611b79a540a4edbcb5b752b2b1cbdd"
    );
}

#[test]
fn sign_known_answer_simple() {
    let sig = sign_payload(b"key", b"The quick brown fox jumps over the lazy dog");
    assert_eq!(
        sig,
        "d7f4727e2c0b39ae0f1e40cc96f60242d5b7801841cea6fc592c5d3e1ae50700582a96cf35e1e554995fe4e03381c237"
    );
}

#[test]
fn sign_accepts_empty_key_and_payload() {
    let sig = sign_payload(b"", b"");
    assert_eq!(
        sig,
        "6c1f2ee938fad2e24bd91298474382ca218c75db3d83e114b3d4367776d14d3551289e75e8209cd4b792302840234adc"
    );
}

#[test]
fn signature_is_lowercase_hex_of_fixed_length() {
    let sig = sign_payload(b"secret", b"payload");
    assert_eq!(sig.len(), 96);
    assert!(sig.chars().all(|c| c.is_ascii_digit() || ('a'..='f').contains(&c)));
}

#[test]
fn auth_headers_are_wire_exact() {
    let h = auth_headers("API_KEY", "SECRET_KEY", "/v2/auth/r/wallets", "1234567890123456", "{}");
    assert_eq!(h.len(), 5);
    assert_eq!(h[0].0, "User-Agent");
    assert_eq!(h[0].1, "bitfinex-rs");
    assert_eq!(h[1].0, "bfx-nonce");
    assert_eq!(h[1].1, "1234567890123456");
    assert_eq!(h[2].0, "bfx-apikey");
    assert_eq!(h[2].1, "API_KEY");
    assert_eq!(h[3].0, "bfx-signature");
    assert_eq!(
        h[3].1,
        "4f758e30d656a2f5cafb2a06f39847e39520e3bde05194b20b060ba628fd72be05611b79a540a4edbcb5b752b2b1cbdd"
    );
    assert_eq!(h[4].0, "Content-Type");
    assert_eq!(h[4].1, "application/json");
}

#[test]
fn thousand_nonces_are_distinct_and_increasing() {
    let mut gen = NonceGenerator::new();
    let mut nonces: Vec<String> = Vec::new();
    for _ in 0..1000 {
        nonces.push(gen.next().expect("clock after epoch"));
    }
    let mut last_value: u128 = 0;
    for n in &nonces {
        assert!(n.chars().all(|c| c.is_ascii_digit()));
        let v: u128 = n.parse().expect("nonce is decimal");
        assert!(v > last_value);
        last_value = v;
    }
    let mut sorted = nonces.clone();
    sorted.sort();
    sorted.dedup();
    assert_eq!(sorted.len(), 1000);
}

#[test]
fn nonce_has_no_leading_zero() {
    let mut gen = NonceGenerator::new();
    let n = gen.next().expect("clock after epoch");
    assert!(!n.starts_with('0'));
}
