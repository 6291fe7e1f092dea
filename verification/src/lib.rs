//! User identities for a multi-tenant service: local accounts with a hashed
//! credential, federated accounts asserted by an identity provider, and the
//! role names attached to either.
//!
//! - [`phc`]: the layout of an encoded password hash, over bytes.
//! - [`credential`]: hashing a secret, verifying a candidate, generating a
//!   secret.
//! - [`profile`]: the profile of a federated user and the claims it is made
//!   from.
//! - [`roles`]: role names as a set.
//! - [`text`]: strings as sequences of characters, for the contracts.
//! - [`user`]: the user, its two kinds, and how each is made.
//!
//! # What is assumed
//!
//! Everything here is proved but what other crates do. Of those, this much is
//! taken on trust, each where it is declared in [`credential`]:
//! - of `rand`, that `Alphanumeric` samples letters and digits, as many as
//!   asked for;
//! - of `argon2` and `password_hash`, that hashing under the default
//!   parameters fails only on a secret that is too long, that the encoded hash
//!   has all five fields, and that it parses and verifies against the secret
//!   it was made from;
//! - of the same two, that parsing and verifying are functions of their
//!   arguments. What they compute is named, not described.
//!
//! `url::Url` and the error type of `password_hash` are carried through and
//! never looked into.

pub mod credential;
pub mod phc;
pub mod profile;
pub mod roles;
pub mod text;
pub mod user;
