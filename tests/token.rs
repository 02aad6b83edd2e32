use zero2prod::token::{generate_token, token_char, token_from_draws, TOKEN_LEN};

#[test]
fn draws_map_to_the_alphanumeric_alphabet() {
    assert_eq!(token_char(0), '0');
    assert_eq!(token_char(9), '9');
    assert_eq!(token_char(10), 'A');
    assert_eq!(token_char(35), 'Z');
    assert_eq!(token_char(36), 'a');
    assert_eq!(token_char(61), 'z');
    assert_eq!(token_from_draws(&vec![0, 10, 36, 61]), "0Aaz");
    assert_eq!(token_from_draws(&vec![]), "");
}

#[test]
fn generated_tokens_are_alphanumeric_and_of_fixed_length() {
    let t = generate_token();
    assert_eq!(t.chars().count(), TOKEN_LEN);
    assert!(t.chars().all(|c| c.is_ascii_alphanumeric()));
}

#[test]
fn generated_tokens_differ() {
    assert_ne!(generate_token(), generate_token());
}
