use admissions_core::password::hash;
use admissions_core::password::verify;

#[test]
fn hash_then_verify_accepts_original_plaintext() {
    let stored = hash("correct horse battery staple").expect("hashing failed");
    assert_eq!(verify("correct horse battery staple", stored.as_str()), Ok(true));
}

#[test]
fn verify_rejects_other_plaintexts() {
    let stored = hash("correct horse battery staple").expect("hashing failed");
    assert_eq!(verify("correct horse battery stapler", stored.as_str()), Ok(false));
    assert_eq!(verify("", stored.as_str()), Ok(false));
}

#[test]
fn verify_reports_malformed_stored_hash_as_error() {
    let r = verify("anything", "not-a-bcrypt-hash");
    assert!(r.is_err());
}

#[test]
fn hashes_of_same_password_differ_but_both_verify() {
    let first = hash("swordfish").expect("hashing failed");
    let second = hash("swordfish").expect("hashing failed");
    assert_ne!(first, second);
    assert_eq!(verify("swordfish", first.as_str()), Ok(true));
    assert_eq!(verify("swordfish", second.as_str()), Ok(true));
}
