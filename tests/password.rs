use ms_services::cosan::entity::{Password, PasswordHash};
use ms_services::password::{hash_password, verify_password};

#[test]
fn hash_verifies_against_its_password() {
    let h = hash_password("correct-horse").ok().unwrap();
    assert_eq!(h.len(), 60);
    assert!(h.starts_with("$2b$12$"));
    assert_eq!(verify_password("correct-horse", &h).ok(), Some(true));
}

#[test]
fn hash_rejects_another_password() {
    let h = hash_password("p1").ok().unwrap();
    assert_eq!(verify_password("p2", &h).ok(), Some(false));
}

#[test]
fn hashing_twice_gives_different_hashes_that_both_verify() {
    let a = hash_password("same").ok().unwrap();
    let b = hash_password("same").ok().unwrap();
    assert_ne!(a, b);
    assert_eq!(verify_password("same", &a).ok(), Some(true));
    assert_eq!(verify_password("same", &b).ok(), Some(true));
}

#[test]
fn empty_password_is_hashed() {
    let h = hash_password("").ok().unwrap();
    assert_eq!(verify_password("", &h).ok(), Some(true));
}

#[test]
fn malformed_hash_is_an_error_not_false() {
    let r = verify_password("x", "not a hash");
    assert!(r.is_err());
    assert!(!r.err().unwrap().message.is_empty());
}

#[test]
fn password_entity_hashes_and_hash_entity_verifies() {
    let h = Password::new("s3cret").hash().ok().unwrap();
    assert_ne!(h.value(), "s3cret");
    assert_eq!(h.verify("s3cret").ok(), Some(true));
    assert_eq!(h.verify("other").ok(), Some(false));
    let stored = PasswordHash::new(h.value());
    assert_eq!(stored.verify("s3cret").ok(), Some(true));
}
