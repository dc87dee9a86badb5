//! Verified core of a double opt-in ("confirmed subscription") workflow.
//!
//! A visitor submits a name and an email address; the core records them as a
//! pending subscriber, issues a single-use confirmation token and hands the
//! confirmation email to the transport; visiting the emailed link later flips
//! the subscriber to `confirmed`.
//!
//! The storage the workflows run against is an explicit, in-memory model of
//! the two logical tables (`subscribers` and `subscription_tokens`); the HTTP
//! boundary and the real transports live outside this crate and talk to it
//! through plain values.

pub mod domain;
pub mod email;
pub mod store;
pub mod subscriptions;
pub mod subscriptions_confirm;
