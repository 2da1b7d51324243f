use panoptic::crypto::{compute_auth, generate_challenge, generate_verifier};

#[test]
fn test_verifier_length_and_characters() {
    let verifier = generate_verifier();
    assert_eq!(verifier.len(), 43);
    for c in verifier.chars() {
        assert!(
            c.is_ascii_alphanumeric() || c == '-' || c == '.' || c == '_' || c == '~',
            "Character '{}' is not allowed in PKCE verifier",
            c
        );
    }
}

#[test]
fn test_challenge_generation() {
    let verifier = "dBjftJeZ4CVP-mB92K27uhbUJU1p1r_wW1gFWFOEjXk";
    let expected_challenge = "E9Melhoa2OwvFrEMTJguCHaoeK1t8URWbuGJSstw-cM";
    let challenge = generate_challenge(verifier);
    assert_eq!(challenge, expected_challenge);
}

#[test]
fn verifiers_differ_between_calls() {
    assert_ne!(generate_verifier(), generate_verifier());
}

#[test]
fn obs_auth_string_matches_protocol_example() {
    // base64(sha256(base64(sha256("supersecretpassword" + salt)) + challenge))
    let auth = compute_auth(
        "supersecretpassword",
        "lM1GncleQOaCu9lT1yeUZhFYnqhsLLP1G5lAGo3ixaI=",
        "+IxH4CnCiqpX1rM9scsNynZzbOe4KhDeYcTNS3PDaeY=",
    );
    assert_eq!(auth, "1Ct943GAT+6YQUUX47Ia/ncufilbe6+oD6lY+5kaCu4=");
}

#[test]
fn obs_auth_depends_on_every_input() {
    let base = compute_auth("pw", "salt", "challenge");
    assert_ne!(base, compute_auth("pw2", "salt", "challenge"));
    assert_ne!(base, compute_auth("pw", "salt2", "challenge"));
    assert_ne!(base, compute_auth("pw", "salt", "challenge2"));
    assert_eq!(base.len(), 44);
}
