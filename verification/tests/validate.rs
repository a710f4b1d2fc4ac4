use auth_server::validate_inputs::{validate_password, validate_phone, validate_username};

#[test]
fn short_username_rejected() {
    assert!(!validate_username("ab"));
}

#[test]
fn dotted_username_accepted() {
    assert!(validate_username("alice.2"));
}

#[test]
fn username_must_start_with_letter() {
    assert!(!validate_username("1alice"));
    assert!(!validate_username(".alice"));
}

#[test]
fn username_length_bounds() {
    assert!(!validate_username(""));
    assert!(!validate_username("a"));
    assert!(validate_username("abc"));
    // 1 leading letter + 20 tail characters is the longest accepted form.
    assert!(validate_username("a12345678901234567890"));
    assert!(!validate_username("a123456789012345678901"));
}

#[test]
fn username_tail_characters() {
    assert!(validate_username("bob_7"));
    assert!(validate_username("carl.X"));
    // '@' sits inside the '.'..'_' range the tail class admits; '-' and
    // '!' sit outside it.
    assert!(validate_username("c@rl"));
    assert!(!validate_username("carl-X"));
    assert!(!validate_username("bad!name"));
    assert!(!validate_username("spa ced"));
}

#[test]
fn phone_with_leading_zero_accepted() {
    assert!(validate_phone("0712345678"));
}

#[test]
fn phone_without_leading_zero_rejected() {
    assert!(!validate_phone("712345678"));
}

#[test]
fn phone_length_and_digits() {
    assert!(!validate_phone("071234567"));
    assert!(!validate_phone("07123456789"));
    assert!(!validate_phone("07123x5678"));
    assert!(!validate_phone(""));
    assert!(validate_phone("0000000000"));
}

#[test]
fn password_length_bounds() {
    assert!(!validate_password(""));
    assert!(!validate_password("aB3$xyz"));
    let long = "x".repeat(65);
    assert!(!validate_password(&long));
}

#[test]
fn weak_password_rejected_by_strength() {
    // Correct length, but the strength estimator scores it far below 3.
    assert!(!validate_password("password"));
    assert!(!validate_password("12345678"));
}

#[test]
fn strong_password_accepted() {
    assert!(validate_password("J4#kL9$wQz7!pR2m"));
}
