use newsletter_signup::domain::NAME_MAX_LENGTH;
use newsletter_signup::domain::SubscriberEmail;
use newsletter_signup::domain::SubscriberName;

#[test]
fn name_accepts_an_ordinary_name() {
    let name = SubscriberName::parse("Ursula Le Guin".to_string()).unwrap();
    assert_eq!(name.as_str(), "Ursula Le Guin");
}

#[test]
fn name_rejects_empty_input() {
    assert!(SubscriberName::parse("".to_string()).is_err());
}

#[test]
fn name_rejects_whitespace_only_input() {
    assert!(SubscriberName::parse("   \t \n ".to_string()).is_err());
}

#[test]
fn name_rejects_forbidden_characters() {
    for bad in ['/', '(', ')', '"', '<', '>', '\\', '{', '}'] {
        let candidate = format!("Ursula{}LeGuin", bad);
        assert!(SubscriberName::parse(candidate).is_err(), "{} must be rejected", bad);
    }
}

#[test]
fn name_rejects_control_characters() {
    assert!(SubscriberName::parse("Ursula\u{0007}".to_string()).is_err());
    assert!(SubscriberName::parse("Ursula\u{007f}".to_string()).is_err());
}

#[test]
fn name_length_boundary() {
    assert!(SubscriberName::parse("a".repeat(NAME_MAX_LENGTH)).is_ok());
    assert!(SubscriberName::parse("a".repeat(NAME_MAX_LENGTH + 1)).is_err());
}

#[test]
fn email_accepts_an_ordinary_address() {
    let email = SubscriberEmail::parse("ursula@example.com".to_string()).unwrap();
    assert_eq!(email.as_str(), "ursula@example.com");
}

#[test]
fn email_rejects_missing_at_symbol() {
    assert!(SubscriberEmail::parse("ursulaexample.com".to_string()).is_err());
}

#[test]
fn email_rejects_empty_local_part() {
    assert!(SubscriberEmail::parse("@example.com".to_string()).is_err());
}

#[test]
fn email_rejects_domain_without_dot() {
    assert!(SubscriberEmail::parse("ursula@example".to_string()).is_err());
}

#[test]
fn email_rejects_two_at_symbols() {
    assert!(SubscriberEmail::parse("ursula@guin@example.com".to_string()).is_err());
}

#[test]
fn email_rejects_whitespace() {
    assert!(SubscriberEmail::parse(" ursula@example.com".to_string()).is_err());
    assert!(SubscriberEmail::parse("ursula@example.com ".to_string()).is_err());
    assert!(SubscriberEmail::parse("ursula @example.com".to_string()).is_err());
}

#[test]
fn email_rejects_empty_input() {
    assert!(SubscriberEmail::parse("".to_string()).is_err());
}

#[test]
fn email_dot_before_at_does_not_count() {
    assert!(SubscriberEmail::parse("ursula.le@guin".to_string()).is_err());
}
