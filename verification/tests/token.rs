use newsletter_signup::domain::SubscriptionToken;
use newsletter_signup::domain::TOKEN_LENGTH;

#[test]
fn generated_token_is_of_correct_length_and_alphanumeric() {
    let token = SubscriptionToken::generate();
    assert_eq!(token.as_str().len(), TOKEN_LENGTH);
    assert!(token.as_str().chars().all(|c| c.is_ascii_alphanumeric()));
}

#[test]
fn parse_invalid_token_length_is_err() {
    let token = SubscriptionToken::parse("a".repeat(TOKEN_LENGTH - 1));
    assert!(token.is_err());
}

#[test]
fn parse_invalid_token_character_is_err() {
    let token = SubscriptionToken::parse("a".repeat(TOKEN_LENGTH - 1) + "!");
    assert!(token.is_err());
}

#[test]
fn parse_rejects_every_wrong_length() {
    for len in [0, 1, 24, 26, 100] {
        let token = SubscriptionToken::parse("a".repeat(len));
        assert!(token.is_err(), "length {} must be rejected", len);
    }
}

#[test]
fn parse_rejects_non_alphanumeric_characters() {
    for (i, bad) in [' ', '-', '_', '!', '@', 'é'].iter().enumerate() {
        let position = (i * 4) % TOKEN_LENGTH;
        let mut chars: Vec<char> = "b".repeat(TOKEN_LENGTH).chars().collect();
        chars[position] = *bad;
        let candidate: String = chars.into_iter().collect();
        assert!(SubscriptionToken::parse(candidate).is_err());
    }
}

#[test]
fn parse_reports_length_and_character_errors_distinctly() {
    let short = SubscriptionToken::parse("abc".to_string());
    assert_eq!(short.unwrap_err(), "Invalid token length.");
    let bad_char = SubscriptionToken::parse("a".repeat(TOKEN_LENGTH - 1) + "!");
    assert_eq!(bad_char.unwrap_err(), "Invalid character in token.");
}

#[test]
fn parse_accepts_a_well_formed_token() {
    let raw = "A0c1D2e3F4g5H6i7J8k9LmNoP";
    assert_eq!(raw.len(), TOKEN_LENGTH);
    let token = SubscriptionToken::parse(raw.to_string()).unwrap();
    assert_eq!(token.as_str(), raw);
}

#[test]
fn generated_token_parses_back() {
    for _ in 0..16 {
        let token = SubscriptionToken::generate();
        let reparsed = SubscriptionToken::parse(token.as_str().to_string());
        assert!(reparsed.is_ok());
        assert_eq!(reparsed.unwrap().as_str(), token.as_str());
    }
}
