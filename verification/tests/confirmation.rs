use newsletter_signup::email::EmailClient;
use newsletter_signup::store::Store;
use newsletter_signup::store::SubscriberStatus;
use newsletter_signup::subscriptions::subscribe;
use newsletter_signup::subscriptions::FormData;
use newsletter_signup::subscriptions_confirm::confirm;
use newsletter_signup::subscriptions_confirm::confirm_subscriber;
use newsletter_signup::subscriptions_confirm::get_subscriber_id_from_token;
use newsletter_signup::subscriptions_confirm::ConfirmOutcome;
use newsletter_signup::subscriptions_confirm::Parameters;

const BASE_URL: &str = "https://newsletter.example.com";

fn store_with_one_pending() -> Store {
    let mut store = Store::new();
    let mut client = EmailClient::new();
    let form = FormData { email: "ursula@example.com".to_string(), name: "Ursula Le Guin".to_string() };
    assert!(subscribe(&mut store, &mut client, BASE_URL, form).is_ok());
    store
}

#[test]
fn confirming_with_an_issued_token_confirms_the_subscriber() {
    let mut store = store_with_one_pending();
    let token = store.tokens[0].token.clone();
    let outcome = confirm(&mut store, Parameters { subscription_token: token });
    assert_eq!(outcome, ConfirmOutcome::Success);
    assert_eq!(store.subscribers[0].status, SubscriberStatus::Confirmed);
}

#[test]
fn confirming_twice_is_accepted_and_leaves_status_confirmed() {
    let mut store = store_with_one_pending();
    let token = store.tokens[0].token.clone();
    assert_eq!(
        confirm(&mut store, Parameters { subscription_token: token.clone() }),
        ConfirmOutcome::Success
    );
    assert_eq!(
        confirm(&mut store, Parameters { subscription_token: token }),
        ConfirmOutcome::Success
    );
    assert_eq!(store.subscribers.len(), 1);
    assert_eq!(store.subscribers[0].status, SubscriberStatus::Confirmed);
}

#[test]
fn confirming_with_an_unissued_token_is_rejected_and_mutates_nothing() {
    let mut store = store_with_one_pending();
    let unissued = "a".repeat(25);
    assert_ne!(store.tokens[0].token, unissued);
    let outcome = confirm(&mut store, Parameters { subscription_token: unissued });
    assert_eq!(outcome, ConfirmOutcome::Rejected);
    assert_eq!(store.subscribers[0].status, SubscriberStatus::PendingConfirmation);
}

#[test]
fn confirming_with_a_malformed_token_is_rejected_and_mutates_nothing() {
    let mut store = store_with_one_pending();
    for bad in ["", "short", &"a".repeat(26), &("b".repeat(24) + "!")] {
        let outcome = confirm(&mut store, Parameters { subscription_token: bad.to_string() });
        assert_eq!(outcome, ConfirmOutcome::Rejected);
    }
    assert_eq!(store.subscribers[0].status, SubscriberStatus::PendingConfirmation);
}

#[test]
fn a_stored_token_resolves_to_its_subscriber() {
    let store = store_with_one_pending();
    let id = get_subscriber_id_from_token(&store, &store.tokens[0].token).unwrap();
    assert_eq!(id, Some(store.subscribers[0].id));
    let missing = get_subscriber_id_from_token(&store, &"c".repeat(25)).unwrap();
    assert_eq!(missing, None);
}

#[test]
fn marking_an_absent_subscriber_confirmed_is_a_harmless_no_op() {
    let mut store = store_with_one_pending();
    let unknown_id = store.subscribers[0].id.wrapping_add(1);
    assert!(confirm_subscriber(&mut store, unknown_id).is_ok());
    assert_eq!(store.subscribers[0].status, SubscriberStatus::PendingConfirmation);
}

#[test]
fn resubscribing_after_confirmation_creates_a_new_pending_row() {
    let mut store = store_with_one_pending();
    let token = store.tokens[0].token.clone();
    assert_eq!(
        confirm(&mut store, Parameters { subscription_token: token }),
        ConfirmOutcome::Success
    );
    let mut client = EmailClient::new();
    let form = FormData { email: "ursula@example.com".to_string(), name: "Ursula Le Guin".to_string() };
    assert!(subscribe(&mut store, &mut client, BASE_URL, form).is_ok());
    assert_eq!(store.subscribers.len(), 2);
    assert_eq!(store.subscribers[0].status, SubscriberStatus::Confirmed);
    assert_eq!(store.subscribers[1].status, SubscriberStatus::PendingConfirmation);
    assert_eq!(store.tokens.len(), 2);
}
