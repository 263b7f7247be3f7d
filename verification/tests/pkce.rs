use picoclaw::auth::pkce::PkceChallenge;

fn url_safe(c: char) -> bool {
    c.is_ascii_alphanumeric() || c == '-' || c == '_'
}

#[test]
fn test_pkce_challenge_generation() {
    let challenge = PkceChallenge::generate();
    assert!(!challenge.code_verifier.is_empty());
    assert!(!challenge.code_challenge.is_empty());
}

#[test]
fn test_pkce_verifier_length() {
    let challenge = PkceChallenge::generate();
    let len = challenge.code_verifier.len();
    assert!(len >= 43 && len <= 128);
}

#[test]
fn test_pkce_verifier_is_url_safe_base64() {
    let challenge = PkceChallenge::generate();
    assert!(challenge.code_verifier.chars().all(url_safe));
}

#[test]
fn test_pkce_challenge_is_url_safe_base64() {
    let challenge = PkceChallenge::generate();
    assert!(challenge.code_challenge.chars().all(url_safe));
}

#[test]
fn test_pkce_verify_valid() {
    let challenge = PkceChallenge::generate();
    assert!(challenge.verify(&challenge.code_challenge));
}

#[test]
fn test_pkce_verify_invalid() {
    let challenge = PkceChallenge::generate();
    assert!(!challenge.verify("invalid_challenge"));
}

#[test]
fn test_pkce_is_valid_verifier() {
    let challenge = PkceChallenge::generate();
    assert!(challenge.is_valid_verifier());
}

#[test]
fn test_pkce_is_valid_challenge() {
    let challenge = PkceChallenge::generate();
    assert!(challenge.is_valid_challenge());
}

#[test]
fn test_pkce_multiple_generations_are_different() {
    let challenge1 = PkceChallenge::generate();
    let challenge2 = PkceChallenge::generate();
    assert_ne!(challenge1.code_verifier, challenge2.code_verifier);
    assert_ne!(challenge1.code_challenge, challenge2.code_challenge);
}

#[test]
fn pkce_known_vector() {
    // A pair computed independently (SHA-256, then URL-safe base64 without padding).
    let pair = PkceChallenge {
        code_verifier: "dBjftJeZ4CVP-mJ92K9qGddRoVf2KNgzTKBMLCZT-kU".to_string(),
        code_challenge: "aLceOsqL9rZRiBFSlyn4xxa8LOBqYtVjILSm7zvlukE".to_string(),
    };
    assert!(pair.verify("aLceOsqL9rZRiBFSlyn4xxa8LOBqYtVjILSm7zvlukE"));
    assert!(!pair.verify("aLceOsqL9rZRiBFSlyn4xxa8LOBqYtVjILSm7zvlukF"));
    assert!(pair.is_valid_verifier());
    assert!(pair.is_valid_challenge());
}

#[test]
fn pkce_validity_edges() {
    let short = PkceChallenge { code_verifier: "a".repeat(42), code_challenge: "abc".into() };
    assert!(!short.is_valid_verifier());
    let min = PkceChallenge { code_verifier: "a".repeat(43), code_challenge: "abc".into() };
    assert!(min.is_valid_verifier());
    let max = PkceChallenge { code_verifier: "a".repeat(128), code_challenge: "a+b".into() };
    assert!(max.is_valid_verifier());
    assert!(!max.is_valid_challenge());
    let long = PkceChallenge { code_verifier: "a".repeat(129), code_challenge: "".into() };
    assert!(!long.is_valid_verifier());
    assert!(long.is_valid_challenge());
    let bad = PkceChallenge { code_verifier: format!("{}=", "a".repeat(50)), code_challenge: "x".into() };
    assert!(!bad.is_valid_verifier());
}

#[test]
fn pkce_pair_from_bytes() {
    let bytes: Vec<u8> = (0u8..32).collect();
    let pair = PkceChallenge::from_bytes(&bytes);
    assert_eq!(pair.code_verifier, "AAECAwQFBgcICQoLDA0ODxAREhMUFRYXGBkaGxwdHh8");
    assert_eq!(pair.code_challenge, "6oZqdX5MOLq_qBJ8vppAnT4fk6AP8UiP9zX8-Rev_9A");
    assert!(pair.verify("6oZqdX5MOLq_qBJ8vppAnT4fk6AP8UiP9zX8-Rev_9A"));
    assert!(pair.is_valid_verifier());
    let zeros = PkceChallenge::from_bytes(&[0u8; 32]);
    assert_eq!(zeros.code_verifier, "A".repeat(43));
    assert_ne!(PkceChallenge::generate().code_verifier, zeros.code_verifier);
}
