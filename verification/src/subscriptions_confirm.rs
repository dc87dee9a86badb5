//! The confirmation workflow: a visitor follows the emailed link, the token
//! in it is parsed, resolved to a subscriber, and that subscriber's status is
//! flipped to `confirmed`. A malformed or unknown token yields the same
//! generic rejection, so the response leaks nothing about which emails are
//! registered.

use vstd::prelude::*;

verus! {

use crate::domain::SubscriptionToken;
use crate::domain::is_valid_token;
use crate::store::StorageError;
use crate::store::Store;
use crate::store::StoreModel;
use crate::store::SubscriberStatus;
use crate::store::confirm_subscriber_model;
use crate::store::has_subscriber_id;
use crate::store::has_token_for;
use crate::store::has_token_string;
use crate::store::is_token_for;
use crate::store::store_wf;

/// The raw query parameters of one confirmation request.
pub struct Parameters {
    pub subscription_token: String,
}

/// Outcome of one confirmation request, as the boundary reports it.
#[derive(Clone, Copy, Debug, PartialEq, Eq, Structural)]
pub enum ConfirmOutcome {
    Success,
    Rejected,
}

/// The raw token is a credential the store has issued: syntactically valid
/// and present in the token table.
pub open spec fn token_recognized(m: StoreModel, token: Seq<char>) -> bool {
    &&& is_valid_token(token)
    &&& has_token_string(m, token)
}

/// The subscriber id the given token resolves to; under `store_wf` the token
/// row holding it is unique.
pub open spec fn token_subscriber_id(m: StoreModel, token: Seq<char>) -> u128 {
    m.tokens[choose|k: int|
        0 <= k < m.tokens.len() && (#[trigger] m.tokens[k]).token == token].subscriber_id
}

/// Looks a subscriber id up by exact token match.
pub fn get_subscriber_id_from_token(store: &Store, subscription_token: &str) -> (r: Result<
    Option<u128>,
    StorageError,
>)
    ensures
        r is Ok,
        r matches Ok(o) ==> (o is Some <==> has_token_string(store@, subscription_token@)),
        r matches Ok(o) && o matches Some(id) ==> exists|k: int|
            0 <= k < store@.tokens.len() && (#[trigger] store@.tokens[k]).token
                == subscription_token@ && store@.tokens[k].subscriber_id == id,
{
    let mut k: usize = 0;
    while k < store.tokens.len()
        invariant
            k <= store.tokens.len(),
            forall|l: int| 0 <= l < k ==> (#[trigger] store@.tokens[l]).token != subscription_token@,
        decreases store.tokens.len() - k,
    {
        if crate::store::str_eq(store.tokens[k].token.as_str(), subscription_token) {
            proof {
                assert((#[trigger] store@.tokens[k as int]).token == subscription_token@);
            }
            return Ok(Some(store.tokens[k].subscriber_id));
        }
        k += 1;
    }
    Ok(None)
}

/// Idempotently marks the subscriber with the given id as confirmed; marking
/// an already confirmed subscriber again changes nothing.
pub fn confirm_subscriber(store: &mut Store, subscriber_id: u128) -> (r: Result<(), StorageError>)
    ensures
        r is Ok,
        final(store)@ == confirm_subscriber_model(old(store)@, subscriber_id),
{
    let n = store.subscribers.len();
    let mut i: usize = 0;
    while i < n
        invariant
            i <= n,
            n == store.subscribers@.len(),
            n == old(store).subscribers@.len(),
            store.tokens@ == old(store).tokens@,
            forall|j: int|
                0 <= j < i ==> #[trigger] store.subscribers@[j]@ == confirm_subscriber_model(
                    old(store)@,
                    subscriber_id,
                ).subscribers[j],
            forall|j: int|
                i <= j < n ==> #[trigger] store.subscribers@[j] == old(store).subscribers@[j],
        decreases n - i,
    {
        if store.subscribers[i].id == subscriber_id {
            store.subscribers[i].status = SubscriberStatus::Confirmed;
            proof {
                let m = old(store)@;
                assert(store.subscribers@[i as int]@ =~= confirm_subscriber_model(
                    m,
                    subscriber_id,
                ).subscribers[i as int]);
            }
        } else {
            proof {
                assert(store.subscribers@[i as int]@ =~= confirm_subscriber_model(
                    old(store)@,
                    subscriber_id,
                ).subscribers[i as int]);
            }
        }
        i += 1;
    }
    proof {
        assert(store@ =~~= confirm_subscriber_model(old(store)@, subscriber_id));
    }
    Ok(())
}

/// Marking a subscriber confirmed preserves the store invariant: ids,
/// emails and tokens are untouched, and a status only moves from pending to
/// confirmed.
pub proof fn lemma_confirm_preserves_wf(m: StoreModel, id: u128)
    requires
        store_wf(m),
    ensures
        store_wf(confirm_subscriber_model(m, id)),
{
    let post = confirm_subscriber_model(m, id);
    assert forall|k: int| 0 <= k < post.tokens.len() implies has_subscriber_id(
        post,
        (#[trigger] post.tokens[k]).subscriber_id,
    ) by {
        assert(has_subscriber_id(m, m.tokens[k].subscriber_id));
        let i = choose|i: int|
            0 <= i < m.subscribers.len() && (#[trigger] m.subscribers[i]).id
                == m.tokens[k].subscriber_id;
        assert(post.subscribers[i].id == m.tokens[k].subscriber_id);
    }
    assert forall|i: int| 0 <= i < post.subscribers.len() implies has_token_for(
        post,
        (#[trigger] post.subscribers[i]).id,
    ) by {
        assert(has_token_for(m, m.subscribers[i].id));
        let k = choose|k: int| is_token_for(m, k, m.subscribers[i].id);
        assert(is_token_for(post, k, post.subscribers[i].id));
    }
}

/// Entry point of the confirmation workflow: parse the raw token, resolve it
/// to a subscriber, flip that subscriber to confirmed. A malformed or
/// unissued token is rejected and mutates nothing.
pub fn confirm(store: &mut Store, parameters: Parameters) -> (r: ConfirmOutcome)
    requires
        old(store).wf(),
    ensures
        final(store).wf(),
        !token_recognized(old(store)@, parameters.subscription_token@) ==> r is Rejected
            && final(store)@ == old(store)@,
        token_recognized(old(store)@, parameters.subscription_token@) ==> r is Success
            && final(store)@ == confirm_subscriber_model(
            old(store)@,
            token_subscriber_id(old(store)@, parameters.subscription_token@),
        ),
{
    let subscription_token = match SubscriptionToken::parse(parameters.subscription_token) {
        Ok(token) => token,
        Err(_) => {
            return ConfirmOutcome::Rejected;
        },
    };
    let id = match get_subscriber_id_from_token(store, subscription_token.as_str()) {
        Ok(id) => id,
        Err(_) => {
            return ConfirmOutcome::Rejected;
        },
    };
    match id {
        Some(id) => {
            proof {
                let m = store@;
                let tok = subscription_token@;
                let k = choose|k: int|
                    0 <= k < m.tokens.len() && (#[trigger] m.tokens[k]).token == tok
                        && m.tokens[k].subscriber_id == id;
                let ck = choose|k: int|
                    0 <= k < m.tokens.len() && (#[trigger] m.tokens[k]).token == tok;
                if ck != k {
                    assert(m.tokens[ck].token != m.tokens[k].token);
                }
                assert(token_subscriber_id(m, tok) == id);
                lemma_confirm_preserves_wf(store@, id);
            }
            if confirm_subscriber(store, id).is_err() {
                return ConfirmOutcome::Rejected;
            }
            ConfirmOutcome::Success
        },
        None => ConfirmOutcome::Rejected,
    }
}

/// Law: confirming is idempotent — after a confirmation, the same token is
/// still recognized, still resolves to the same subscriber, and confirming
/// again leaves the store exactly as it was after the first confirmation.
pub proof fn lemma_confirm_idempotent(m: StoreModel, token: Seq<char>)
    requires
        store_wf(m),
        token_recognized(m, token),
    ensures
        token_recognized(confirm_subscriber_model(m, token_subscriber_id(m, token)), token),
        token_subscriber_id(confirm_subscriber_model(m, token_subscriber_id(m, token)), token)
            == token_subscriber_id(m, token),
        confirm_subscriber_model(
            confirm_subscriber_model(m, token_subscriber_id(m, token)),
            token_subscriber_id(m, token),
        ) == confirm_subscriber_model(m, token_subscriber_id(m, token)),
{
    let id = token_subscriber_id(m, token);
    let once = confirm_subscriber_model(m, id);
    assert(once.tokens == m.tokens);
    assert(token_subscriber_id(once, token) == id);
    assert(confirm_subscriber_model(once, id) =~~= once);
}

/// Law: a recognized token's subscriber is confirmed by the workflow's store
/// update, whatever its status was before.
pub proof fn lemma_confirm_sets_status(m: StoreModel, token: Seq<char>, i: int)
    requires
        store_wf(m),
        token_recognized(m, token),
        0 <= i < m.subscribers.len(),
        m.subscribers[i].id == token_subscriber_id(m, token),
    ensures
        confirm_subscriber_model(m, token_subscriber_id(m, token)).subscribers[i].status
            is Confirmed,
{
}

} // verus!
