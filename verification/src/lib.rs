//! Identity lifecycle and session rules of a small banking service.
//!
//! An account holder registers an identity for a bank account once its
//! routing code has been verified by a third party, logs in with the same
//! credentials to get a session token that is valid for a day, and reads a
//! redacted view of the identity with that token.
//!
//! This crate holds the rules, each with its contract: what is accepted,
//! what is refused and with which error, what is stored, and what is
//! shown. The datastore, the verification service and the HTTP server stay
//! outside: the functions here take their outcomes as values.
//!
//! - [`validation`]: the syntactic rules on a registration input.
//! - [`bank_api`]: what a reply of the verification service means.
//! - [`registration`]: registration as a state machine around the store
//!   and the verification service.
//! - [`token`]: issuing and verifying session tokens.
//! - [`login`]: from credentials to a token.
//! - [`session`]: from an authorization header to the identity of the
//!   request.
//! - [`redact`]: the public view of an identity.
//! - [`store`]: the identity store, in memory.
//! - [`service`]: the three operations run against the in-memory store.
//! - [`error`]: the errors, their statuses and their texts.
//! - [`model`], [`ids`], [`clock`], [`text`]: records, ids, the clock and
//!   helpers on texts.

pub mod bank_api;
pub mod clock;
pub mod error;
pub mod ids;
pub mod login;
pub mod model;
pub mod redact;
pub mod registration;
pub mod service;
pub mod session;
pub mod store;
pub mod text;
pub mod token;
pub mod validation;
