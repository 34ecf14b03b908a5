use dormnet_setup::secret::{
    generate, session_secret, SecretError, SESSION_CHARSET, SESSION_SECRET_LENGTH,
};

#[test]
fn generate_has_the_length_asked_for() {
    for length in [1usize, 2, 7, 32, 100] {
        let secret = generate(length, "abc").unwrap();
        assert_eq!(secret.chars().count(), length);
    }
}

#[test]
fn generate_draws_every_character_from_the_charset() {
    let charset = "xyz012";
    let secret = generate(200, charset).unwrap();
    assert!(secret.chars().all(|c| charset.contains(c)));
}

#[test]
fn generate_counts_characters_not_bytes() {
    let charset = "äöü";
    let secret = generate(9, charset).unwrap();
    assert_eq!(secret.chars().count(), 9);
    assert_eq!(secret.len(), 18);
    assert!(secret.chars().all(|c| charset.contains(c)));
}

#[test]
fn generate_with_one_character_repeats_it() {
    assert_eq!(generate(5, "q").unwrap(), "qqqqq");
}

#[test]
fn generate_of_length_zero_is_empty() {
    assert_eq!(generate(0, "abc").unwrap(), "");
}

#[test]
fn generate_refuses_an_empty_charset() {
    assert_eq!(generate(8, ""), Err(SecretError::InvalidCharset));
    assert_eq!(generate(0, ""), Err(SecretError::InvalidCharset));
}

#[test]
fn generate_does_not_hand_the_charset_back() {
    let secret = generate(8, "xyz").unwrap();
    assert_eq!(secret.chars().count(), 8);
    assert_ne!(secret, "xyz");
}

#[test]
fn session_secret_has_32_characters_of_the_session_charset() {
    assert_eq!(SESSION_SECRET_LENGTH, 32);
    assert_eq!(SESSION_CHARSET, "abcdefghijklmnopqrstuvwsyz1234567890!@#$%^&*()");
    let secret = session_secret();
    assert_eq!(secret.chars().count(), 32);
    assert!(secret.chars().all(|c| SESSION_CHARSET.contains(c)));
}

#[test]
fn session_secret_holds_no_reserved_character() {
    for _ in 0..50 {
        let secret = session_secret();
        assert!(!secret.contains(|c| c == '=' || c == '"' || c == '\'' || c == '\n' || c == '\r'));
    }
}

#[test]
fn session_secrets_differ() {
    let first = session_secret();
    let mut differs = false;
    for _ in 0..10 {
        if session_secret() != first {
            differs = true;
        }
    }
    assert!(differs);
}
