//! The storage collaborator: an in-memory model of the two logical tables,
//! `subscribers(id, email, name, subscribed_at, status)` and
//! `subscription_tokens(token, subscriber_id)`, together with the transaction
//! boundary the subscription workflow runs its writes under and the
//! well-formedness invariant the workflows maintain.

use vstd::prelude::*;
use vstd::string::StrSliceExecFns;

verus! {

use crate::domain::is_valid_token;

/// Status of one subscriber row.
#[derive(Clone, Copy, Debug, PartialEq, Eq, Structural)]
pub enum SubscriberStatus {
    PendingConfirmation,
    Confirmed,
}

/// One row of the `subscribers` table.
#[derive(Debug)]
pub struct SubscriberRow {
    pub id: u128,
    pub email: String,
    pub name: String,
    pub subscribed_at: i64,
    pub status: SubscriberStatus,
}

/// Spec-level image of one subscriber row.
#[verifier::ext_equal]
pub struct SubscriberModel {
    pub id: u128,
    pub email: Seq<char>,
    pub name: Seq<char>,
    pub subscribed_at: i64,
    pub status: SubscriberStatus,
}

impl View for SubscriberRow {
    type V = SubscriberModel;

    open spec fn view(&self) -> SubscriberModel {
        SubscriberModel {
            id: self.id,
            email: self.email@,
            name: self.name@,
            subscribed_at: self.subscribed_at,
            status: self.status,
        }
    }
}

/// One row of the `subscription_tokens` table.
#[derive(Debug)]
pub struct TokenRow {
    pub token: String,
    pub subscriber_id: u128,
}

/// Spec-level image of one token row.
#[verifier::ext_equal]
pub struct TokenModel {
    pub token: Seq<char>,
    pub subscriber_id: u128,
}

impl View for TokenRow {
    type V = TokenModel;

    open spec fn view(&self) -> TokenModel {
        TokenModel { token: self.token@, subscriber_id: self.subscriber_id }
    }
}

/// Spec-level image of the whole store: the two tables.
#[verifier::ext_equal]
pub struct StoreModel {
    pub subscribers: Seq<SubscriberModel>,
    pub tokens: Seq<TokenModel>,
}

/// Failure of a storage operation, surfaced to the workflows as an
/// unexpected error.
#[derive(Clone, Copy, Debug, PartialEq, Eq, Structural)]
pub enum StorageError {
    DuplicateId,
    DuplicateToken,
    MissingSubscriber,
}

/// Row `i` of `m` is a pending subscriber with the given email.
pub open spec fn is_pending_with_email(m: StoreModel, i: int, email: Seq<char>) -> bool {
    &&& 0 <= i < m.subscribers.len()
    &&& m.subscribers[i].status is PendingConfirmation
    &&& m.subscribers[i].email == email
}

/// Some pending subscriber row of `m` has the given email.
pub open spec fn has_pending_with_email(m: StoreModel, email: Seq<char>) -> bool {
    exists|i: int| is_pending_with_email(m, i, email)
}

/// Some subscriber row of `m` has the given id.
pub open spec fn has_subscriber_id(m: StoreModel, id: u128) -> bool {
    exists|i: int| 0 <= i < m.subscribers.len() && (#[trigger] m.subscribers[i]).id == id
}

/// Token row `k` of `m` references the subscriber with the given id.
pub open spec fn is_token_for(m: StoreModel, k: int, id: u128) -> bool {
    &&& 0 <= k < m.tokens.len()
    &&& m.tokens[k].subscriber_id == id
}

/// Some token row of `m` references the subscriber with the given id.
pub open spec fn has_token_for(m: StoreModel, id: u128) -> bool {
    exists|k: int| is_token_for(m, k, id)
}

/// Some token row of `m` holds the given token string.
pub open spec fn has_token_string(m: StoreModel, token: Seq<char>) -> bool {
    exists|k: int| 0 <= k < m.tokens.len() && (#[trigger] m.tokens[k]).token == token
}

/// Well-formedness of the store, the invariant every workflow entry point
/// preserves:
/// subscriber ids are unique; a given email has at most one pending row;
/// token strings are unique; no two token rows reference the same
/// subscriber; every token row references an existing subscriber; every
/// stored token is syntactically valid; and every subscriber has a token
/// row (subscriber and token are created together and never deleted).
pub open spec fn store_wf(m: StoreModel) -> bool {
    &&& (forall|i: int, j: int|
        0 <= i < m.subscribers.len() && 0 <= j < m.subscribers.len() && i != j ==> (
        #[trigger] m.subscribers[i]).id != (#[trigger] m.subscribers[j]).id)
    &&& (forall|i: int, j: int|
        0 <= i < m.subscribers.len() && 0 <= j < m.subscribers.len() && i != j && (
        #[trigger] m.subscribers[i]).status is PendingConfirmation && (
        #[trigger] m.subscribers[j]).status is PendingConfirmation
            ==> m.subscribers[i].email != m.subscribers[j].email)
    &&& (forall|k: int, l: int|
        0 <= k < m.tokens.len() && 0 <= l < m.tokens.len() && k != l ==> (
        #[trigger] m.tokens[k]).token != (#[trigger] m.tokens[l]).token)
    &&& (forall|k: int, l: int|
        0 <= k < m.tokens.len() && 0 <= l < m.tokens.len() && k != l ==> (
        #[trigger] m.tokens[k]).subscriber_id != (#[trigger] m.tokens[l]).subscriber_id)
    &&& (forall|k: int|
        0 <= k < m.tokens.len() ==> has_subscriber_id(m, (#[trigger] m.tokens[k]).subscriber_id))
    &&& (forall|k: int| 0 <= k < m.tokens.len() ==> is_valid_token((#[trigger] m.tokens[k]).token))
    &&& (forall|i: int|
        0 <= i < m.subscribers.len() ==> has_token_for(m, (#[trigger] m.subscribers[i]).id))
}

/// The index of the pending subscriber row with the given email; under
/// `store_wf` there is at most one.
pub open spec fn pending_index_of(m: StoreModel, email: Seq<char>) -> int {
    choose|i: int| is_pending_with_email(m, i, email)
}

/// The index of the token row referencing the given subscriber; under
/// `store_wf` there is at most one.
pub open spec fn token_index_for(m: StoreModel, id: u128) -> int {
    choose|k: int| is_token_for(m, k, id)
}

/// The token issued to the subscriber with the given id.
pub open spec fn token_of_subscriber(m: StoreModel, id: u128) -> Seq<char> {
    m.tokens[token_index_for(m, id)].token
}

/// The token of the pending subscriber with the given email.
pub open spec fn pending_token_of(m: StoreModel, email: Seq<char>) -> Seq<char> {
    token_of_subscriber(m, m.subscribers[pending_index_of(m, email)].id)
}

/// Under `store_wf`, a pending row with a given email is the only one.
pub proof fn lemma_pending_index_unique(m: StoreModel, email: Seq<char>, i: int)
    requires
        store_wf(m),
        is_pending_with_email(m, i, email),
    ensures
        pending_index_of(m, email) == i,
{
    let ci = pending_index_of(m, email);
    assert(is_pending_with_email(m, ci, email));
    if ci != i {
        assert(m.subscribers[ci].email != m.subscribers[i].email);
    }
}

/// Under `store_wf`, a token row for a given subscriber id is the only one.
pub proof fn lemma_token_index_unique(m: StoreModel, id: u128, k: int)
    requires
        store_wf(m),
        is_token_for(m, k, id),
    ensures
        token_index_for(m, id) == k,
{
    let ck = token_index_for(m, id);
    assert(is_token_for(m, ck, id));
}

/// The store after idempotently marking the subscriber with the given id as
/// confirmed: statuses of matching rows flip to `Confirmed`, everything else
/// is unchanged.
pub open spec fn confirm_subscriber_model(m: StoreModel, id: u128) -> StoreModel {
    StoreModel {
        subscribers: Seq::new(
            m.subscribers.len(),
            |i: int|
                SubscriberModel {
                    id: m.subscribers[i].id,
                    email: m.subscribers[i].email,
                    name: m.subscribers[i].name,
                    subscribed_at: m.subscribers[i].subscribed_at,
                    status: if m.subscribers[i].id == id {
                        SubscriberStatus::Confirmed
                    } else {
                        m.subscribers[i].status
                    },
                },
        ),
        tokens: m.tokens,
    }
}

/// The spec-level image of one pair of tables.
pub open spec fn tables_view(subscribers: Seq<SubscriberRow>, tokens: Seq<TokenRow>) -> StoreModel {
    StoreModel {
        subscribers: subscribers.map_values(|r: SubscriberRow| r@),
        tokens: tokens.map_values(|r: TokenRow| r@),
    }
}

/// The empty store.
pub open spec fn empty_store() -> StoreModel {
    StoreModel { subscribers: Seq::<SubscriberModel>::empty(), tokens: Seq::<TokenModel>::empty() }
}

/// The storage collaborator itself.
#[derive(Debug)]
pub struct Store {
    pub subscribers: Vec<SubscriberRow>,
    pub tokens: Vec<TokenRow>,
}

/// A transaction: a working copy of the tables. Writes go to the copy and
/// reach the store only through `Store::commit`; dropping the transaction
/// rolls them back.
#[derive(Debug)]
pub struct Transaction {
    pub subscribers: Vec<SubscriberRow>,
    pub tokens: Vec<TokenRow>,
}

impl View for Store {
    type V = StoreModel;

    open spec fn view(&self) -> StoreModel {
        tables_view(self.subscribers@, self.tokens@)
    }
}

impl View for Transaction {
    type V = StoreModel;

    open spec fn view(&self) -> StoreModel {
        tables_view(self.subscribers@, self.tokens@)
    }
}

fn clone_subscriber_rows(rows: &Vec<SubscriberRow>) -> (r: Vec<SubscriberRow>)
    ensures
        r@ == rows@,
{
    let mut out: Vec<SubscriberRow> = Vec::new();
    let mut i: usize = 0;
    while i < rows.len()
        invariant
            i <= rows.len(),
            out@.len() == i as nat,
            forall|j: int| 0 <= j < i ==> out@[j] == rows@[j],
        decreases rows.len() - i,
    {
        let row = &rows[i];
        out.push(
            SubscriberRow {
                id: row.id,
                email: row.email.clone(),
                name: row.name.clone(),
                subscribed_at: row.subscribed_at,
                status: row.status,
            },
        );
        i += 1;
    }
    proof {
        assert(out@ =~= rows@);
    }
    out
}

fn clone_token_rows(rows: &Vec<TokenRow>) -> (r: Vec<TokenRow>)
    ensures
        r@ == rows@,
{
    let mut out: Vec<TokenRow> = Vec::new();
    let mut i: usize = 0;
    while i < rows.len()
        invariant
            i <= rows.len(),
            out@.len() == i as nat,
            forall|j: int| 0 <= j < i ==> out@[j] == rows@[j],
        decreases rows.len() - i,
    {
        let row = &rows[i];
        out.push(TokenRow { token: row.token.clone(), subscriber_id: row.subscriber_id });
        i += 1;
    }
    proof {
        assert(out@ =~= rows@);
    }
    out
}

impl Store {
    pub open spec fn wf(&self) -> bool {
        store_wf(self@)
    }

    /// A store with no rows.
    pub fn new() -> (r: Store)
        ensures
            r@ == empty_store(),
            r.wf(),
    {
        let store = Store { subscribers: Vec::new(), tokens: Vec::new() };
        proof {
            assert(store@.subscribers =~= empty_store().subscribers);
            assert(store@.tokens =~= empty_store().tokens);
        }
        store
    }

    /// Opens a transaction: a working copy of the current tables.
    pub fn begin(&self) -> (tx: Transaction)
        ensures
            tx@ == self@,
    {
        Transaction {
            subscribers: clone_subscriber_rows(&self.subscribers),
            tokens: clone_token_rows(&self.tokens),
        }
    }

    /// Commits a transaction: the store takes over its tables.
    pub fn commit(&mut self, tx: Transaction)
        ensures
            final(self)@ == tx@,
    {
        self.subscribers = tx.subscribers;
        self.tokens = tx.tokens;
    }
}

/// Character-wise string comparison; `&str` has no specified equality here.
pub(crate) fn str_eq(a: &str, b: &str) -> (r: bool)
    ensures
        r == (a@ == b@),
{
    let n = a.unicode_len();
    if n != b.unicode_len() {
        return false;
    }
    let mut i: usize = 0;
    while i < n
        invariant
            i <= n,
            n == a@.len(),
            n == b@.len(),
            forall|j: int| 0 <= j < i ==> a@[j] == b@[j],
        decreases n - i,
    {
        if a.get_char(i) != b.get_char(i) {
            return false;
        }
        i += 1;
    }
    proof {
        assert(a@ =~= b@);
    }
    true
}

} // verus!
