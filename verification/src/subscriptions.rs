//! The subscription workflow: validate the submitted name and email, check
//! for an existing pending subscriber under one transaction, create a fresh
//! subscriber row and token row if there is none, commit, and only then hand
//! the confirmation email to the transport. A submission repeated before
//! confirmation reuses the stored token instead of creating a second pending
//! row.

use vstd::prelude::*;
use vstd::string::StringExecFns;

verus! {

use crate::domain::NewSubscriber;
use crate::domain::SubscriberEmail;
use crate::domain::SubscriberName;
use crate::domain::SubscriptionToken;
use crate::domain::is_valid_email;
use crate::domain::is_valid_name;
use crate::domain::is_valid_token;
use crate::email::EmailClient;
use crate::email::EmailError;
use crate::email::EmailMessageModel;
use crate::store::StorageError;
use crate::store::Store;
use crate::store::StoreModel;
use crate::store::SubscriberModel;
use crate::store::SubscriberRow;
use crate::store::SubscriberStatus;
use crate::store::TokenModel;
use crate::store::TokenRow;
use crate::store::Transaction;
use crate::store::has_pending_with_email;
use crate::store::has_subscriber_id;
use crate::store::has_token_for;
use crate::store::has_token_string;
use crate::store::is_pending_with_email;
use crate::store::is_token_for;
use crate::store::lemma_pending_index_unique;
use crate::store::lemma_token_index_unique;
use crate::store::pending_token_of;
use crate::store::store_wf;
use crate::store::str_eq;

/// One raw form submission as decoded at the HTTP boundary.
pub struct FormData {
    pub email: String,
    pub name: String,
}

/// Storage failure while looking up a pending token. The workflow folds
/// lookup failures into its unified unexpected error, so nothing constructs
/// this today; it stays available for finer-grained diagnostics.
#[derive(Clone, Copy, Debug, PartialEq, Eq, Structural)]
pub struct GetTokenError(pub StorageError);

/// Storage failure while inserting a token row.
#[derive(Clone, Copy, Debug, PartialEq, Eq, Structural)]
pub struct StoreTokenError(pub StorageError);

/// The lower-level cause carried by an unexpected subscription failure, kept
/// for diagnostics.
#[derive(Debug)]
pub enum UnexpectedCause {
    Storage(StorageError),
    TokenStorage(StoreTokenError),
    EmailTransport(EmailError),
}

/// The two-tier error taxonomy of the subscription workflow: client-caused
/// validation failures, and unexpected storage or transport failures
/// carrying their cause and a context line.
#[derive(Debug)]
pub enum SubscribeError {
    ValidationError(String),
    UnexpectedError(UnexpectedCause, String),
}

impl From<String> for SubscribeError {
    fn from(error: String) -> SubscribeError {
        SubscribeError::ValidationError(error)
    }
}

impl vstd::std_specs::convert::FromSpecImpl<String> for SubscribeError {
    open spec fn obeys_from_spec() -> bool {
        true
    }

    open spec fn from_spec(v: String) -> SubscribeError {
        SubscribeError::ValidationError(v)
    }
}

impl SubscribeError {
    /// The HTTP status code the boundary maps this error to: a client error
    /// for invalid input, a server error for anything unexpected.
    pub fn status_code(&self) -> (r: u16)
        ensures
            self is ValidationError ==> r == 400,
            self is UnexpectedError ==> r == 500,
    {
        match self {
            SubscribeError::ValidationError(_) => 400,
            SubscribeError::UnexpectedError(_, _) => 500,
        }
    }
}

impl NewSubscriber {
    /// Parses one raw form submission into a validated subscription request;
    /// the name is checked first, as submitted.
    pub fn try_from(form: FormData) -> (r: Result<NewSubscriber, String>)
        ensures
            r is Ok <==> is_valid_name(form.name@) && is_valid_email(form.email@),
            r matches Ok(s) ==> s.name@ == form.name@ && s.email@ == form.email@,
            !is_valid_name(form.name@) ==> (r matches Err(m) && m@
                == "Invalid subscriber name."@),
            is_valid_name(form.name@) && !is_valid_email(form.email@) ==> (r matches Err(m) && m@
                == "Invalid subscriber email."@),
    {
        let name = match SubscriberName::parse(form.name) {
            Ok(name) => name,
            Err(e) => {
                return Err(e);
            },
        };
        let email = match SubscriberEmail::parse(form.email) {
            Ok(email) => email,
            Err(e) => {
                return Err(e);
            },
        };
        Ok(NewSubscriber { email, name })
    }
}

/// Relies on uuid's `Uuid::new_v4` for a freshly drawn random identifier,
/// carried as its 128-bit value.
#[verifier::external_body]
fn fresh_subscriber_id() -> u128 {
    uuid::Uuid::new_v4().as_u128()
}

/// Relies on chrono's `Utc::now` for the current time, carried as a unix
/// timestamp in seconds.
#[verifier::external_body]
fn current_timestamp() -> i64 {
    chrono::Utc::now().timestamp()
}

/// Returns the token stored for a pending subscriber with the submitted
/// email, if that subscriber exists.
pub fn check_and_get_token_pending_confirmation(
    tx: &Transaction,
    new_subscriber: &NewSubscriber,
) -> (r: Option<String>)
    requires
        store_wf(tx@),
    ensures
        r is Some <==> has_pending_with_email(tx@, new_subscriber.email@),
        r matches Some(t) ==> t@ == pending_token_of(tx@, new_subscriber.email@)
            && is_valid_token(t@),
{
    let n = tx.subscribers.len();
    let mut i: usize = 0;
    while i < n
        invariant
            store_wf(tx@),
            i <= n,
            n == tx.subscribers@.len(),
            forall|j: int| 0 <= j < i ==> !is_pending_with_email(tx@, j, new_subscriber.email@),
        decreases n - i,
    {
        let row = &tx.subscribers[i];
        if row.status == SubscriberStatus::PendingConfirmation && str_eq(
            row.email.as_str(),
            new_subscriber.email.as_str(),
        ) {
            proof {
                assert(is_pending_with_email(tx@, i as int, new_subscriber.email@));
            }
            let subscriber_id = row.id;
            let t = tx.tokens.len();
            let mut k: usize = 0;
            while k < t
                invariant
                    store_wf(tx@),
                    k <= t,
                    t == tx.tokens@.len(),
                    is_pending_with_email(tx@, i as int, new_subscriber.email@),
                    i < tx.subscribers@.len(),
                    subscriber_id == tx@.subscribers[i as int].id,
                    forall|l: int|
                        0 <= l < k ==> (#[trigger] tx@.tokens[l]).subscriber_id != subscriber_id,
                decreases t - k,
            {
                if tx.tokens[k].subscriber_id == subscriber_id {
                    proof {
                        lemma_pending_index_unique(tx@, new_subscriber.email@, i as int);
                        assert(is_token_for(tx@, k as int, subscriber_id));
                        lemma_token_index_unique(tx@, subscriber_id, k as int);
                    }
                    return Some(tx.tokens[k].token.clone());
                }
                k += 1;
            }
            proof {
                assert(has_token_for(tx@, subscriber_id));
                let l = choose|l: int| is_token_for(tx@, l, subscriber_id);
                assert((#[trigger] tx@.tokens[l]).subscriber_id == subscriber_id);
                assert(false);
            }
            return None;
        }
        i += 1;
    }
    None
}

/// Inserts a new subscriber row with status `pending_confirmation`, the
/// current timestamp and the given, already drawn id: the insert succeeds
/// exactly when no existing row carries that id, and a conflict leaves the
/// transaction untouched.
pub fn insert_subscriber_with_id(
    tx: &mut Transaction,
    new_subscriber: &NewSubscriber,
    subscriber_id: u128,
) -> (r: Result<u128, StorageError>)
    ensures
        r is Ok <==> !has_subscriber_id(old(tx)@, subscriber_id),
        r matches Err(e) ==> final(tx)@ == old(tx)@ && e is DuplicateId,
        r matches Ok(id) ==> id == subscriber_id && final(tx)@.tokens == old(tx)@.tokens
            && exists|t: i64|
            final(tx)@.subscribers == old(tx)@.subscribers.push(
                (SubscriberModel {
                    id,
                    email: new_subscriber.email@,
                    name: new_subscriber.name@,
                    subscribed_at: t,
                    status: SubscriberStatus::PendingConfirmation,
                }),
            ),
{
    let n = tx.subscribers.len();
    let mut i: usize = 0;
    while i < n
        invariant
            i <= n,
            n == tx.subscribers@.len(),
            forall|j: int| 0 <= j < i ==> (#[trigger] tx@.subscribers[j]).id != subscriber_id,
        decreases n - i,
    {
        if tx.subscribers[i].id == subscriber_id {
            proof {
                assert((#[trigger] tx@.subscribers[i as int]).id == subscriber_id);
            }
            return Err(StorageError::DuplicateId);
        }
        i += 1;
    }
    proof {
        assert(!has_subscriber_id(tx@, subscriber_id));
    }
    let subscribed_at = current_timestamp();
    let email = new_subscriber.email.as_str().to_owned();
    let name = new_subscriber.name.as_str().to_owned();
    tx.subscribers.push(
        SubscriberRow {
            id: subscriber_id,
            email,
            name,
            subscribed_at,
            status: SubscriberStatus::PendingConfirmation,
        },
    );
    proof {
        assert(tx@.subscribers =~= old(tx)@.subscribers.push(
            (SubscriberModel {
                id: subscriber_id,
                email: new_subscriber.email@,
                name: new_subscriber.name@,
                subscribed_at,
                status: SubscriberStatus::PendingConfirmation,
            }),
        ));
        assert(tx@.tokens =~= old(tx)@.tokens);
    }
    Ok(subscriber_id)
}

/// Creates a new subscriber row with status `pending_confirmation`, the
/// current timestamp and a freshly generated unique id; a conflicting id is
/// surfaced as a storage failure, never silently absorbed. Whether the drawn
/// id conflicts is up to the random source, so the exact success condition
/// lives on `insert_subscriber_with_id`, which takes the drawn id as an
/// argument.
pub fn insert_subscriber(tx: &mut Transaction, new_subscriber: &NewSubscriber) -> (r: Result<
    u128,
    StorageError,
>)
    ensures
        r matches Err(e) ==> final(tx)@ == old(tx)@ && e is DuplicateId,
        r matches Ok(id) ==> !has_subscriber_id(old(tx)@, id) && final(tx)@.tokens == old(tx)@.tokens
            && exists|t: i64|
            final(tx)@.subscribers == old(tx)@.subscribers.push(
                (SubscriberModel {
                    id,
                    email: new_subscriber.email@,
                    name: new_subscriber.name@,
                    subscribed_at: t,
                    status: SubscriberStatus::PendingConfirmation,
                }),
            ),
{
    let subscriber_id = fresh_subscriber_id();
    insert_subscriber_with_id(tx, new_subscriber, subscriber_id)
}

/// Inserts a token row referencing the given subscriber; fails if that
/// subscriber is absent (integrity violation) or if the token string is
/// already stored (duplicate token).
pub fn store_token(tx: &mut Transaction, subscriber_id: u128, subscription_token: &str) -> (r:
    Result<(), StoreTokenError>)
    ensures
        r is Ok <==> has_subscriber_id(old(tx)@, subscriber_id) && !has_token_string(
            old(tx)@,
            subscription_token@,
        ),
        r is Ok ==> final(tx)@.subscribers == old(tx)@.subscribers && final(tx)@.tokens == old(
            tx,
        )@.tokens.push((TokenModel { token: subscription_token@, subscriber_id })),
        r is Err ==> final(tx)@ == old(tx)@,
        !has_subscriber_id(old(tx)@, subscriber_id) ==> (r matches Err(e)
            && e.0 is MissingSubscriber),
        has_subscriber_id(old(tx)@, subscriber_id) && has_token_string(
            old(tx)@,
            subscription_token@,
        ) ==> (r matches Err(e) && e.0 is DuplicateToken),
{
    let n = tx.subscribers.len();
    let mut found = false;
    let mut i: usize = 0;
    while i < n
        invariant
            i <= n,
            n == tx.subscribers@.len(),
            found ==> has_subscriber_id(tx@, subscriber_id),
            !found ==> forall|j: int|
                0 <= j < i ==> (#[trigger] tx@.subscribers[j]).id != subscriber_id,
        decreases n - i,
    {
        if tx.subscribers[i].id == subscriber_id {
            proof {
                assert((#[trigger] tx@.subscribers[i as int]).id == subscriber_id);
            }
            found = true;
        }
        i += 1;
    }
    if !found {
        return Err(StoreTokenError(StorageError::MissingSubscriber));
    }
    let t = tx.tokens.len();
    let mut k: usize = 0;
    while k < t
        invariant
            k <= t,
            t == tx.tokens@.len(),
            has_subscriber_id(tx@, subscriber_id),
            tx@ == old(tx)@,
            forall|l: int| 0 <= l < k ==> (#[trigger] tx@.tokens[l]).token != subscription_token@,
        decreases t - k,
    {
        if str_eq(tx.tokens[k].token.as_str(), subscription_token) {
            proof {
                assert((#[trigger] tx@.tokens[k as int]).token == subscription_token@);
            }
            return Err(StoreTokenError(StorageError::DuplicateToken));
        }
        k += 1;
    }
    tx.tokens.push(TokenRow { token: subscription_token.to_owned(), subscriber_id });
    proof {
        assert(tx@.tokens =~= old(tx)@.tokens.push(
            (TokenModel { token: subscription_token@, subscriber_id }),
        ));
        assert(tx@.subscribers =~= old(tx)@.subscribers);
    }
    Ok(())
}

/// The confirmation link embedded in the email, byte for byte.
pub open spec fn confirmation_link(base_url: Seq<char>, token: Seq<char>) -> Seq<char> {
    base_url + "/subscriptions/confirm?subscription_token="@ + token
}

/// The plain-text body of the confirmation email.
pub open spec fn confirmation_plain_body(base_url: Seq<char>, token: Seq<char>) -> Seq<char> {
    "Welcome to our newsletter!\nVisit "@ + confirmation_link(base_url, token)
        + " to confirm your subscription."@
}

/// The HTML body of the confirmation email.
pub open spec fn confirmation_html_body(base_url: Seq<char>, token: Seq<char>) -> Seq<char> {
    "Welcome to our newsletter!<br/>Click <a href=\""@ + confirmation_link(base_url, token)
        + "\">here</a> to confirm your subscription."@
}

/// The one confirmation email for a given recipient, base URL and token.
pub open spec fn confirmation_email_of(
    recipient: Seq<char>,
    base_url: Seq<char>,
    token: Seq<char>,
) -> EmailMessageModel {
    EmailMessageModel {
        recipient,
        subject: "Welcome!"@,
        plain_body: confirmation_plain_body(base_url, token),
        html_body: confirmation_html_body(base_url, token),
    }
}

/// How one send attempt changes the email client: the message is recorded
/// exactly when the transport is up, and the transport state is untouched.
pub open spec fn email_attempt(pre: EmailClient, post: EmailClient, msg: EmailMessageModel) -> bool {
    &&& post.transport_up == pre.transport_up
    &&& if pre.transport_up {
        post@ == pre@.push(msg)
    } else {
        post@ == pre@
    }
}

/// Builds the confirmation email for the new subscriber — link, plain body
/// and HTML body exactly as specified — and hands it to the transport.
pub fn send_confirmation_email(
    email_client: &mut EmailClient,
    new_subscriber: &NewSubscriber,
    base_url: &str,
    subscription_token: &str,
) -> (r: Result<(), EmailError>)
    ensures
        r is Ok <==> old(email_client).transport_up,
        email_attempt(
            *old(email_client),
            *final(email_client),
            confirmation_email_of(new_subscriber.email@, base_url@, subscription_token@),
        ),
{
    let mut link = String::from_str(base_url);
    link.append("/subscriptions/confirm?subscription_token=");
    link.append(subscription_token);
    let mut plain_body = String::from_str("Welcome to our newsletter!\nVisit ");
    plain_body.append(link.as_str());
    plain_body.append(" to confirm your subscription.");
    let mut html_body = String::from_str("Welcome to our newsletter!<br/>Click <a href=\"");
    html_body.append(link.as_str());
    html_body.append("\">here</a> to confirm your subscription.");
    proof {
        assert(link@ =~= confirmation_link(base_url@, subscription_token@));
        assert(plain_body@ =~= confirmation_plain_body(base_url@, subscription_token@));
        assert(html_body@ =~= confirmation_html_body(base_url@, subscription_token@));
    }
    email_client.send_email(
        new_subscriber.email.as_str(),
        "Welcome!",
        plain_body.as_str(),
        html_body.as_str(),
    )
}

/// The error carries the email transport's failure as its cause.
pub open spec fn is_transport_failure(e: SubscribeError) -> bool {
    e matches SubscribeError::UnexpectedError(UnexpectedCause::EmailTransport(_), _)
}

/// The error carries a storage failure as its cause.
pub open spec fn is_storage_failure(e: SubscribeError) -> bool {
    ||| e matches SubscribeError::UnexpectedError(UnexpectedCause::Storage(_), _)
    ||| e matches SubscribeError::UnexpectedError(UnexpectedCause::TokenStorage(_), _)
}

/// The store change of a successful create branch: one new pending
/// subscriber row and one new token row referencing it, with id and token
/// fresh and the token well formed.
pub open spec fn subscription_created(
    pre: StoreModel,
    post: StoreModel,
    email: Seq<char>,
    name: Seq<char>,
    id: u128,
    subscribed_at: i64,
    token: Seq<char>,
) -> bool {
    &&& !has_subscriber_id(pre, id)
    &&& !has_token_string(pre, token)
    &&& is_valid_token(token)
    &&& post.subscribers == pre.subscribers.push(
        (SubscriberModel {
            id,
            email,
            name,
            subscribed_at,
            status: SubscriberStatus::PendingConfirmation,
        }),
    )
    &&& post.tokens == pre.tokens.push((TokenModel { token, subscriber_id: id }))
}

/// A committed create branch preserves the store invariant, leaves the new
/// subscriber pending under the submitted email, and stores exactly the
/// generated token for it.
pub proof fn lemma_created_pending(
    pre: StoreModel,
    post: StoreModel,
    email: Seq<char>,
    name: Seq<char>,
    id: u128,
    subscribed_at: i64,
    token: Seq<char>,
)
    requires
        store_wf(pre),
        !has_pending_with_email(pre, email),
        subscription_created(pre, post, email, name, id, subscribed_at, token),
    ensures
        store_wf(post),
        has_pending_with_email(post, email),
        pending_token_of(post, email) == token,
{
    let n = pre.subscribers.len() as int;
    let t = pre.tokens.len() as int;
    assert forall|i: int, j: int|
        0 <= i < post.subscribers.len() && 0 <= j < post.subscribers.len() && i != j implies (
    #[trigger] post.subscribers[i]).id != (#[trigger] post.subscribers[j]).id by {
        if i == n && 0 <= j < n {
            if pre.subscribers[j].id == id {
                assert(has_subscriber_id(pre, id));
            }
        }
        if j == n && 0 <= i < n {
            if pre.subscribers[i].id == id {
                assert(has_subscriber_id(pre, id));
            }
        }
    }
    assert forall|i: int, j: int|
        0 <= i < post.subscribers.len() && 0 <= j < post.subscribers.len() && i != j && (
        #[trigger] post.subscribers[i]).status is PendingConfirmation && (
        #[trigger] post.subscribers[j]).status is PendingConfirmation implies post.subscribers[i].email
        != post.subscribers[j].email by {
        if i == n && 0 <= j < n {
            if pre.subscribers[j].email == email {
                assert(is_pending_with_email(pre, j, email));
            }
        }
        if j == n && 0 <= i < n {
            if pre.subscribers[i].email == email {
                assert(is_pending_with_email(pre, i, email));
            }
        }
    }
    assert forall|k: int, l: int|
        0 <= k < post.tokens.len() && 0 <= l < post.tokens.len() && k != l implies (
    #[trigger] post.tokens[k]).token != (#[trigger] post.tokens[l]).token by {
        if k == t && 0 <= l < t {
            if pre.tokens[l].token == token {
                assert(has_token_string(pre, token));
            }
        }
        if l == t && 0 <= k < t {
            if pre.tokens[k].token == token {
                assert(has_token_string(pre, token));
            }
        }
    }
    assert forall|k: int, l: int|
        0 <= k < post.tokens.len() && 0 <= l < post.tokens.len() && k != l implies (
    #[trigger] post.tokens[k]).subscriber_id != (#[trigger] post.tokens[l]).subscriber_id by {
        if k == t && 0 <= l < t {
            assert(has_subscriber_id(pre, pre.tokens[l].subscriber_id));
            if pre.tokens[l].subscriber_id == id {
                assert(has_subscriber_id(pre, id));
            }
        }
        if l == t && 0 <= k < t {
            assert(has_subscriber_id(pre, pre.tokens[k].subscriber_id));
            if pre.tokens[k].subscriber_id == id {
                assert(has_subscriber_id(pre, id));
            }
        }
    }
    assert forall|k: int| 0 <= k < post.tokens.len() implies has_subscriber_id(
        post,
        (#[trigger] post.tokens[k]).subscriber_id,
    ) by {
        if k < t {
            assert(has_subscriber_id(pre, pre.tokens[k].subscriber_id));
            let i = choose|i: int|
                0 <= i < pre.subscribers.len() && (#[trigger] pre.subscribers[i]).id
                    == pre.tokens[k].subscriber_id;
            assert((#[trigger] post.subscribers[i]).id == post.tokens[k].subscriber_id);
        } else {
            assert((#[trigger] post.subscribers[n]).id == post.tokens[k].subscriber_id);
        }
    }
    assert forall|k: int| 0 <= k < post.tokens.len() implies is_valid_token(
        (#[trigger] post.tokens[k]).token,
    ) by {
        if k < t {
            assert(is_valid_token(pre.tokens[k].token));
        }
    }
    assert forall|i: int| 0 <= i < post.subscribers.len() implies has_token_for(
        post,
        (#[trigger] post.subscribers[i]).id,
    ) by {
        if i < n {
            assert(has_token_for(pre, pre.subscribers[i].id));
            let k = choose|k: int| is_token_for(pre, k, pre.subscribers[i].id);
            assert(is_token_for(post, k, post.subscribers[i].id));
        } else {
            assert(is_token_for(post, t, post.subscribers[i].id));
        }
    }
    assert(is_pending_with_email(post, n, email));
    lemma_pending_index_unique(post, email, n);
    assert(is_token_for(post, t, id));
    lemma_token_index_unique(post, id, t);
}

/// Law: once a submission for an email is committed, the store holds exactly
/// one pending subscriber row for that email, and a second submission before
/// confirmation finds and reuses the very token stored with the first — also
/// when the first submission's email send failed after the commit, since the
/// committed rows persist regardless of the transport outcome.
pub proof fn lemma_resubmission_reuses_token(
    pre: StoreModel,
    post: StoreModel,
    email: Seq<char>,
    name: Seq<char>,
    id: u128,
    subscribed_at: i64,
    token: Seq<char>,
)
    requires
        store_wf(pre),
        !has_pending_with_email(pre, email),
        subscription_created(pre, post, email, name, id, subscribed_at, token),
    ensures
        store_wf(post),
        has_pending_with_email(post, email),
        pending_token_of(post, email) == token,
        forall|i: int, j: int|
            is_pending_with_email(post, i, email) && is_pending_with_email(post, j, email) ==> i
                == j,
{
    lemma_created_pending(pre, post, email, name, id, subscribed_at, token);
    assert forall|i: int, j: int|
        is_pending_with_email(post, i, email) && is_pending_with_email(post, j, email) implies i
        == j by {
        if i != j {
            assert(post.subscribers[i].email != post.subscribers[j].email);
        }
    }
}

/// Entry point of the subscription workflow.
///
/// Validates the submitted fields, then, under one transaction: reuses the
/// pending token if this email already has a pending subscriber, otherwise
/// inserts a fresh subscriber row and stores a newly generated token;
/// commits; and only after the commit hands the confirmation email to the
/// transport. An email-send failure is reported, but the committed rows
/// persist, so an identical retry converges on the same token.
pub fn subscribe(
    store: &mut Store,
    email_client: &mut EmailClient,
    base_url: &str,
    form: FormData,
) -> (r: Result<(), SubscribeError>)
    requires
        old(store).wf(),
    ensures
        final(store).wf(),
        final(email_client).transport_up == old(email_client).transport_up,
        (r matches Err(e) && e is ValidationError) <==> !(is_valid_name(form.name@)
            && is_valid_email(form.email@)),
        !(is_valid_name(form.name@) && is_valid_email(form.email@)) ==> final(store)@ == old(
            store,
        )@ && final(email_client)@ == old(email_client)@,
        is_valid_name(form.name@) && is_valid_email(form.email@) && has_pending_with_email(
            old(store)@,
            form.email@,
        ) ==> final(store)@ == old(store)@ && email_attempt(
            *old(email_client),
            *final(email_client),
            confirmation_email_of(
                form.email@,
                base_url@,
                pending_token_of(old(store)@, form.email@),
            ),
        ) && (r is Ok <==> old(email_client).transport_up) && (r matches Err(e)
            ==> is_transport_failure(e)),
        is_valid_name(form.name@) && is_valid_email(form.email@) && !has_pending_with_email(
            old(store)@,
            form.email@,
        ) ==> ({
            ||| ((r matches Err(e) && is_storage_failure(e)) && final(store)@ == old(store)@
                && final(email_client)@ == old(email_client)@)
            ||| (exists|id: u128, subscribed_at: i64, token: Seq<char>|
                #[trigger] subscription_created(
                    old(store)@,
                    final(store)@,
                    form.email@,
                    form.name@,
                    id,
                    subscribed_at,
                    token,
                ) && email_attempt(
                    *old(email_client),
                    *final(email_client),
                    confirmation_email_of(form.email@, base_url@, token),
                ) && (r is Ok <==> old(email_client).transport_up) && (r matches Err(e)
                    ==> is_transport_failure(e)))
        }),
{
    let ghost email_v = form.email@;
    let ghost name_v = form.name@;
    let new_subscriber = match NewSubscriber::try_from(form) {
        Ok(new_subscriber) => new_subscriber,
        Err(e) => {
            return Err(SubscribeError::ValidationError(e));
        },
    };
    let mut tx = store.begin();
    let pending_token = check_and_get_token_pending_confirmation(&tx, &new_subscriber);
    let subscription_token = match pending_token {
        Some(stored) => {
            match SubscriptionToken::parse(stored) {
                Ok(token) => {
                    proof {
                        assert(tx@ == old(store)@);
                        assert(token@ == pending_token_of(old(store)@, email_v));
                    }
                    token
                },
                Err(e) => {
                    // unreachable: a stored token is valid under the invariant
                    proof {
                        assert(false);
                    }
                    return Err(SubscribeError::ValidationError(e));
                },
            }
        },
        None => {
            let subscriber_id = match insert_subscriber(&mut tx, &new_subscriber) {
                Ok(id) => id,
                Err(e) => {
                    return Err(
                        SubscribeError::UnexpectedError(
                            UnexpectedCause::Storage(e),
                            String::from_str("Failed to insert new subscriber."),
                        ),
                    );
                },
            };
            let ghost ts = choose|t: i64|
                tx@.subscribers == old(store)@.subscribers.push(
                    (SubscriberModel {
                        id: subscriber_id,
                        email: email_v,
                        name: name_v,
                        subscribed_at: t,
                        status: SubscriberStatus::PendingConfirmation,
                    }),
                );
            let token = SubscriptionToken::generate();
            match store_token(&mut tx, subscriber_id, token.as_str()) {
                Ok(()) => {},
                Err(e) => {
                    return Err(
                        SubscribeError::UnexpectedError(
                            UnexpectedCause::TokenStorage(e),
                            String::from_str("Failed to store token."),
                        ),
                    );
                },
            }
            proof {
                assert(subscription_created(
                    old(store)@,
                    tx@,
                    email_v,
                    name_v,
                    subscriber_id,
                    ts,
                    token@,
                ));
                lemma_created_pending(
                    old(store)@,
                    tx@,
                    email_v,
                    name_v,
                    subscriber_id,
                    ts,
                    token@,
                );
            }
            token
        },
    };
    store.commit(tx);
    let sent = send_confirmation_email(
        email_client,
        &new_subscriber,
        base_url,
        subscription_token.as_str(),
    );
    match sent {
        Ok(()) => Ok(()),
        Err(e) => Err(
            SubscribeError::UnexpectedError(
                UnexpectedCause::EmailTransport(e),
                String::from_str("Failed to send confirmation email."),
            ),
        ),
    }
}

} // verus!
