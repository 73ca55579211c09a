use auth_session::digest::sha256_hex;
use auth_session::password::{
    hash_password, hash_password_with_salt, verify_password, HashError,
};

#[test]
fn sha256_hex_of_abc() {
    assert_eq!(
        sha256_hex("abc"),
        "ba7816bf8f01cfea414140de5dae2223b00361a396177a9cb410ff61f20015ad"
    );
}

#[test]
fn sha256_hex_of_empty_text() {
    assert_eq!(
        sha256_hex(""),
        "e3b0c44298fc1c149afbf4c8996fb92427ae41e4649b934ca495991b7852b855"
    );
}

#[test]
fn hashed_password_verifies() {
    let hash = hash_password("supersecret").unwrap();
    assert!(hash.starts_with("$argon2id$"));
    assert!(verify_password("supersecret", &hash));
}

#[test]
fn other_password_does_not_verify() {
    let hash = hash_password("supersecret").unwrap();
    assert!(!verify_password("supersecres", &hash));
    assert!(!verify_password("", &hash));
}

#[test]
fn malformed_hash_verifies_as_false() {
    assert!(!verify_password("supersecret", ""));
    assert!(!verify_password("supersecret", "supersecret"));
    assert!(!verify_password("supersecret", "$argon2id$v=19$m=19456,t=2,p=1$"));
}

#[test]
fn fresh_salts_give_different_hashes() {
    let a = hash_password("supersecret").unwrap();
    let b = hash_password("supersecret").unwrap();
    assert_ne!(a, b);
}

#[test]
fn same_salt_gives_same_hash() {
    let a = hash_password_with_salt("supersecret", "c29tZXNhbHRzb21lc2FsdA").unwrap();
    let b = hash_password_with_salt("supersecret", "c29tZXNhbHRzb21lc2FsdA").unwrap();
    assert_eq!(a, b);
    assert!(a.contains("$c29tZXNhbHRzb21lc2FsdA$"));
    assert!(verify_password("supersecret", &a));
}

#[test]
fn unacceptable_salt_fails_hashing() {
    assert_eq!(hash_password_with_salt("supersecret", "x"), Err(HashError::HashingFailure));
    assert!(hash_password_with_salt("supersecret", "not a salt!").is_err());
}

#[test]
fn fresh_hash_describes_itself() {
    let hash = hash_password("supersecret").unwrap();
    assert!(hash.starts_with("$argon2id$"));
    let salt = hash.split('$').nth(4).unwrap();
    assert_eq!(salt.len(), 22);
    assert!(salt.chars().all(|c| c.is_ascii_alphanumeric() || c == '+' || c == '/'));
}
