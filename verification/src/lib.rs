//! Simple Accounts: accounts opened against a hashcash proof of work,
//! TOTP or OpenPGP authentication, sessions, and wallet balances.
//!
//! The models (`users`, `wallets`, `tokens`, `sessions`, `configuration`)
//! and the decisions of every HTTP endpoint are verified. Each endpoint is a
//! flow: `start` gives the first command, and `step` takes what a database
//! or cache call answered and gives the next command, until a reply ends the
//! request (see `protocol`).

use vstd::prelude::*;

pub mod text;
pub mod randoms;
pub mod configuration;
pub mod auth;
pub mod users;
pub mod wallets;
pub mod sessions;
pub mod tokens;
pub mod protocol;

verus! {
}
