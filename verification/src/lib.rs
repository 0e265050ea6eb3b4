//! Authorization and validation core of a multi-tenant issue tracker.
//!
//! Users sign up and log in, create organizations, add members to them and
//! manage the issues of an organization. This library decides who is
//! calling, whether they may do what they ask, and whether what they sent
//! is sound. It does no input or output: the transport hands it the
//! credential header and the payload, storage is asked by the caller, and
//! what storage answered is handed in as a [`storage::Lookup`].
//!
//! A request goes through its decisions in a fixed order: authentication
//! ([`auth`]), authorization ([`access`]), the structure of the payload
//! ([`validate`]), the references in the payload, and only then the change.
//! Where storage must be asked in between, a decision is split into stages;
//! each stage takes the outcome of the one before it and the answer of
//! storage, and either ends the request with a [`failure::Failure`] or
//! hands on what the next stage needs.
//!
//! Tokens come from `jsonwebtoken`, password hashes from `bcrypt`,
//! identifiers from `mongodb`'s `bson`, and the time from `chrono`. What
//! is assumed of each stands at the function that calls it.

pub mod access;
pub mod accounts;
pub mod auth;
pub mod env;
pub mod failure;
pub mod ident;
pub mod issues;
pub mod membership;
pub mod models;
pub mod organizations;
pub mod server;
pub mod status;
pub mod storage;
pub mod text;
pub mod token;
pub mod validate;
pub mod world;
