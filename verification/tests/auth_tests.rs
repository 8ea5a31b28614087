use eremote::auth::{generate_credentials, generate_host_id, generate_password, hash_password, verify_password};

#[test]
fn test_generate_host_id() {
    let id = generate_host_id();
    assert_eq!(id.len(), 9);
    assert!(id.chars().all(|c| c.is_ascii_digit()));
}

#[test]
fn test_generate_password() {
    let pw = generate_password();
    assert_eq!(pw.len(), 6);
}

#[test]
fn password_uses_unambiguous_alphabet() {
    for _ in 0..50 {
        let pw = generate_password();
        assert!(pw.chars().all(|c| "ABCDEFGHJKLMNPQRSTUVWXYZ23456789".contains(c)));
    }
}

#[test]
fn host_id_in_range() {
    for _ in 0..50 {
        let id: u32 = generate_host_id().parse().unwrap();
        assert!((100_000_000..999_999_999).contains(&id));
    }
}

#[test]
fn hashed_password_verifies_and_others_do_not() {
    let hash = hash_password("K7PQ2Z").expect("hashing works");
    assert!(hash.starts_with("$argon2id$"));
    assert!(verify_password("K7PQ2Z", &hash));
    assert!(!verify_password("K7PQ2Y", &hash));
}

#[test]
fn malformed_hash_never_verifies() {
    assert!(!verify_password("anything", "not-a-phc-string"));
    assert!(!verify_password("", ""));
}

#[test]
fn credentials_have_both_parts() {
    let (id, pw) = generate_credentials();
    assert_eq!(id.len(), 9);
    assert_eq!(pw.len(), 6);
}
