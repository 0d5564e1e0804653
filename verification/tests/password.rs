use dollop::{hash_password, verify_password};

#[test]
fn hash_then_verify_succeeds() {
    let plaintext = String::from("hunter42");
    let hash = hash_password(&plaintext).ok().unwrap();
    assert!(verify_password(&plaintext, &hash));
}

#[test]
fn hash_is_not_the_plaintext() {
    let plaintext = String::from("secret");
    let hash = hash_password(&plaintext).ok().unwrap();
    assert_ne!(hash, plaintext);
    assert!(hash.starts_with('$'));
}

#[test]
fn wrong_password_fails_verification() {
    let p1 = String::from("correct horse battery staple");
    let p2 = String::from("Tr0ub4dor&3");
    let hash = hash_password(&p2).ok().unwrap();
    assert!(!verify_password(&p1, &hash));
}

#[test]
fn empty_password_round_trip() {
    let empty = String::new();
    let other = String::from("x");
    let hash = hash_password(&empty).ok().unwrap();
    assert!(verify_password(&empty, &hash));
    assert!(!verify_password(&other, &hash));
}

#[test]
fn invalid_hash_string_never_matches() {
    let hash = String::from("not-a-valid-hash-string");
    assert!(!verify_password(&String::from("anything"), &hash));
    assert!(!verify_password(&String::new(), &hash));
    assert!(!verify_password(&hash, &hash));
}

#[test]
fn empty_hash_string_never_matches() {
    let hash = String::new();
    assert!(!verify_password(&String::from("anything"), &hash));
}

#[test]
fn two_hashes_of_one_password_are_salted_apart() {
    let plaintext = String::from("same password");
    let h1 = hash_password(&plaintext).ok().unwrap();
    let h2 = hash_password(&plaintext).ok().unwrap();
    assert_ne!(h1, h2);
    assert!(verify_password(&plaintext, &h1));
    assert!(verify_password(&plaintext, &h2));
}
