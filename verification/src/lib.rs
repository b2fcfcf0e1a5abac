//! Identity-verification tokens and member reconciliation.
//!
//! The crate has two halves. The first is the token protocol: an identifier is
//! encrypted deterministically, bound to a set of directory attributes, and
//! signed into a compact token that can later be redeemed. The second keeps a
//! community platform's per-member display state in step with the verification
//! records, and decides what a queue consumer does with each request it pulls.
//!
//! Everything here computes on plain values. Queues, directories, mail and the
//! platform client are reached by the program around this library, which hands
//! in what it read and carries out the actions that come back.

pub mod text;
pub mod mac;
pub mod cipher;
pub mod token;
pub mod config;
pub mod request;
pub mod queue;
pub mod consumer;
pub mod directory;
pub mod ignore_set;
pub mod roles;
pub mod reconcile;
pub mod scan;
pub mod trigger;
pub mod commands;
pub mod refresh;
