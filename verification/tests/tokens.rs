use std::collections::HashSet;

use registration::tokens::confirmation_token_subject;
use registration::tokens::generate_token;
use registration::tokens::new_confirmation_token;
use registration::tokens::CONFIRMATION_TOKEN_TTL_SECONDS;
use registration::tokens::TOKEN_RANDOM_BYTES;

fn is_crockford(c: char) -> bool {
    c.is_ascii_digit()
        || (c.is_ascii_uppercase() && !matches!(c, 'I' | 'L' | 'O' | 'U'))
}

#[test]
fn thousand_tokens_are_distinct() {
    let mut seen = HashSet::new();
    for _ in 0..1000 {
        let token = new_confirmation_token();
        assert!(seen.insert(token), "token generator repeated a value");
    }
    assert_eq!(seen.len(), 1000);
}

#[test]
fn tokens_have_fixed_length_and_crockford_charset() {
    for _ in 0..100 {
        let token = new_confirmation_token();
        assert_eq!(token.len(), 52);
        assert!(token.chars().all(is_crockford), "bad token: {token}");
    }
}

#[test]
fn generate_token_length_follows_the_size() {
    assert_eq!(generate_token(0).len(), 0);
    assert_eq!(generate_token(1).len(), 2);
    assert_eq!(generate_token(5).len(), 8);
    assert_eq!(generate_token(32).len(), 52);
}

#[test]
fn token_policy_constants() {
    assert_eq!(TOKEN_RANDOM_BYTES, 32);
    assert_eq!(CONFIRMATION_TOKEN_TTL_SECONDS, 600);
}

#[test]
fn subject_is_namespaced_by_username() {
    assert_eq!(
        confirmation_token_subject("johndoe"),
        "confirmation_tokens:johndoe"
    );
    assert_eq!(confirmation_token_subject(""), "confirmation_tokens:");
}
