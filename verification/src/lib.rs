//! Bookkeeping for the four roles of an anonymous-credential exchange: a
//! registry of published artifacts, an issuer, a prover and a verifier.
//!
//! The cryptography is not done here. Every artifact is held as the
//! identifiers that the bookkeeping reads, beside the encoded material that
//! only the credential library can interpret. An operation that only
//! consults what a role holds says what is to be handed to the credential
//! library, or refuses; an operation that extends what a role holds takes
//! what the credential library made and records it.
//!
//! - `registry`: the identifier-keyed store that every role is built on.
//! - `ids`, `model`, `attribute`, `presentation`, `formats`: the artifacts.
//! - `vdr`, `issuer`, `prover`, `verification`: the registry of published
//!   artifacts and the three roles around it.
//! - `selection`, `checking`: which credentials go into a presentation, and
//!   whether a presentation shows what was expected of it.
//! - `wallet`: a ledger and three wallets that keep a whole exchange in memory.

pub mod attribute;
pub mod checking;
pub mod error;
pub mod formats;
pub mod ids;
pub mod issuer;
pub mod model;
pub mod presentation;
pub mod prover;
pub mod registry;
pub mod selection;
pub mod vdr;
pub mod verification;
pub mod wallet;
