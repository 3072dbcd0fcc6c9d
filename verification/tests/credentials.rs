use chat_relay::credentials::{decide, hashed, password_matches};

#[test]
fn password_matches_its_own_hash_and_no_other() {
    let hash = hashed("hunter2").unwrap();
    assert_ne!(hash, "hunter2");
    assert_eq!(hash.len(), 60);
    assert!(password_matches(Some(&hash), "hunter2"));
    assert!(!password_matches(Some(&hash), "hunter3"));
}

#[test]
fn known_hash_is_checked_as_bcrypt_checks_it() {
    let hash = "$2b$04$EGdrhbKUv8Oc9vGiXX0HQOxSg445d458Muh7DAHskb6QbtCvdxcie";
    assert!(password_matches(Some(hash), "correctbatteryhorsestapler"));
    assert!(!password_matches(Some(hash), "wrong"));
}

#[test]
fn unknown_account_and_broken_hash_accept_nothing() {
    assert!(!password_matches(None, "hunter2"));
    assert!(!password_matches(Some("hunter2"), "hunter2"));
    assert!(!password_matches(Some(""), ""));
}

#[test]
fn decide_needs_a_stored_hash_and_a_match() {
    assert!(decide(Some("h"), Some(true)));
    assert!(!decide(Some("h"), Some(false)));
    assert!(!decide(Some("h"), None));
    assert!(!decide(None, Some(true)));
}
