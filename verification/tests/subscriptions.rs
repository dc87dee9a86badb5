use newsletter_signup::domain::NewSubscriber;
use newsletter_signup::email::EmailClient;
use newsletter_signup::email::EmailError;
use newsletter_signup::store::StorageError;
use newsletter_signup::store::Store;
use newsletter_signup::store::SubscriberStatus;
use newsletter_signup::subscriptions::insert_subscriber_with_id;
use newsletter_signup::subscriptions::subscribe;
use newsletter_signup::subscriptions::FormData;
use newsletter_signup::subscriptions::SubscribeError;
use newsletter_signup::subscriptions::UnexpectedCause;

const BASE_URL: &str = "https://newsletter.example.com";

fn ursula() -> FormData {
    FormData { email: "ursula@example.com".to_string(), name: "Ursula Le Guin".to_string() }
}

#[test]
fn subscribe_creates_one_pending_row_one_token_and_one_email() {
    let mut store = Store::new();
    let mut client = EmailClient::new();
    let outcome = subscribe(&mut store, &mut client, BASE_URL, ursula());
    assert!(outcome.is_ok());

    assert_eq!(store.subscribers.len(), 1);
    let row = &store.subscribers[0];
    assert_eq!(row.email, "ursula@example.com");
    assert_eq!(row.name, "Ursula Le Guin");
    assert_eq!(row.status, SubscriberStatus::PendingConfirmation);

    assert_eq!(store.tokens.len(), 1);
    assert_eq!(store.tokens[0].subscriber_id, row.id);

    assert_eq!(client.sent.len(), 1);
    let email = &client.sent[0];
    let link = format!(
        "{}/subscriptions/confirm?subscription_token={}",
        BASE_URL, store.tokens[0].token
    );
    assert_eq!(email.recipient, "ursula@example.com");
    assert_eq!(email.subject, "Welcome!");
    assert_eq!(
        email.plain_body,
        format!("Welcome to our newsletter!\nVisit {} to confirm your subscription.", link)
    );
    assert_eq!(
        email.html_body,
        format!(
            "Welcome to our newsletter!<br/>Click <a href=\"{}\">here</a> to confirm your subscription.",
            link
        )
    );
    assert!(email.plain_body.contains(&link));
}

#[test]
fn subscribe_twice_reuses_the_pending_token() {
    let mut store = Store::new();
    let mut client = EmailClient::new();
    assert!(subscribe(&mut store, &mut client, BASE_URL, ursula()).is_ok());
    let first_token = store.tokens[0].token.clone();

    assert!(subscribe(&mut store, &mut client, BASE_URL, ursula()).is_ok());
    assert_eq!(store.subscribers.len(), 1);
    assert_eq!(store.subscribers[0].status, SubscriberStatus::PendingConfirmation);
    assert_eq!(store.tokens.len(), 1);
    assert_eq!(store.tokens[0].token, first_token);

    assert_eq!(client.sent.len(), 2);
    assert_eq!(client.sent[0].plain_body, client.sent[1].plain_body);
    assert!(client.sent[1].plain_body.contains(&first_token));
}

#[test]
fn subscribe_rejects_empty_name_before_any_write() {
    let mut store = Store::new();
    let mut client = EmailClient::new();
    let form = FormData { email: "ursula@example.com".to_string(), name: "".to_string() };
    let outcome = subscribe(&mut store, &mut client, BASE_URL, form);
    assert!(matches!(outcome, Err(SubscribeError::ValidationError(_))));
    assert_eq!(store.subscribers.len(), 0);
    assert_eq!(store.tokens.len(), 0);
    assert_eq!(client.sent.len(), 0);
}

#[test]
fn subscribe_rejects_email_without_at_before_any_write() {
    let mut store = Store::new();
    let mut client = EmailClient::new();
    let form = FormData { email: "ursula.example.com".to_string(), name: "Ursula".to_string() };
    let outcome = subscribe(&mut store, &mut client, BASE_URL, form);
    assert!(matches!(outcome, Err(SubscribeError::ValidationError(_))));
    assert_eq!(store.subscribers.len(), 0);
    assert_eq!(store.tokens.len(), 0);
    assert_eq!(client.sent.len(), 0);
}

#[test]
fn failed_email_send_keeps_rows_and_retry_reuses_the_token() {
    let mut store = Store::new();
    let mut failing = EmailClient::new_with_failing_transport();
    let outcome = subscribe(&mut store, &mut failing, BASE_URL, ursula());
    assert!(matches!(
        outcome,
        Err(SubscribeError::UnexpectedError(UnexpectedCause::EmailTransport(EmailError), _))
    ));
    assert_eq!(store.subscribers.len(), 1);
    assert_eq!(store.tokens.len(), 1);
    assert_eq!(failing.sent.len(), 0);
    let first_token = store.tokens[0].token.clone();

    let mut client = EmailClient::new();
    assert!(subscribe(&mut store, &mut client, BASE_URL, ursula()).is_ok());
    assert_eq!(store.subscribers.len(), 1);
    assert_eq!(store.tokens.len(), 1);
    assert_eq!(store.tokens[0].token, first_token);
    assert_eq!(client.sent.len(), 1);
    assert!(client.sent[0].plain_body.contains(&first_token));
}

#[test]
fn status_codes_follow_the_error_taxonomy() {
    let validation = SubscribeError::ValidationError("bad input".to_string());
    assert_eq!(validation.status_code(), 400);
    let unexpected = SubscribeError::UnexpectedError(
        UnexpectedCause::EmailTransport(EmailError),
        "Failed to send confirmation email.".to_string(),
    );
    assert_eq!(unexpected.status_code(), 500);
}

#[test]
fn try_from_reports_the_first_failing_parse() {
    let bad_name = NewSubscriber::try_from(FormData {
        email: "ursula@example.com".to_string(),
        name: "".to_string(),
    });
    assert_eq!(bad_name.unwrap_err(), "Invalid subscriber name.");
    let bad_email = NewSubscriber::try_from(FormData {
        email: "nodomain".to_string(),
        name: "Ursula Le Guin".to_string(),
    });
    assert_eq!(bad_email.unwrap_err(), "Invalid subscriber email.");
    let both_bad = NewSubscriber::try_from(FormData {
        email: "nodomain".to_string(),
        name: "".to_string(),
    });
    assert_eq!(both_bad.unwrap_err(), "Invalid subscriber name.");
}

#[test]
fn inserting_with_a_conflicting_id_fails_and_changes_nothing() {
    let mut store = Store::new();
    let mut client = EmailClient::new();
    assert!(subscribe(&mut store, &mut client, BASE_URL, ursula()).is_ok());
    let existing_id = store.subscribers[0].id;

    let mut tx = store.begin();
    let new_subscriber = NewSubscriber::try_from(FormData {
        email: "orsinia@example.com".to_string(),
        name: "Orsinia".to_string(),
    })
    .unwrap();
    let conflict = insert_subscriber_with_id(&mut tx, &new_subscriber, existing_id);
    assert_eq!(conflict, Err(StorageError::DuplicateId));
    assert_eq!(tx.subscribers.len(), 1);

    let fresh_id = existing_id.wrapping_add(1);
    let inserted = insert_subscriber_with_id(&mut tx, &new_subscriber, fresh_id);
    assert_eq!(inserted, Ok(fresh_id));
    assert_eq!(tx.subscribers.len(), 2);
    assert_eq!(tx.subscribers[1].email, "orsinia@example.com");
    assert_eq!(tx.subscribers[1].status, SubscriberStatus::PendingConfirmation);
}

#[test]
fn a_validation_message_converts_into_a_subscribe_error() {
    let error = SubscribeError::from("Invalid subscriber name.".to_string());
    assert!(matches!(error, SubscribeError::ValidationError(m) if m == "Invalid subscriber name."));
}
