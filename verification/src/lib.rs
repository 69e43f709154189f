//! A content-addressed cache of derived runtime environments.
//!
//! An environment is addressed by two digests: one of the base interpreter
//! that underlies it and one of the resolved set of distributions installed
//! into it. This crate holds the rules of that cache: how the two digests are
//! derived, where an entry lives, when an existing entry is reused, and in
//! which order a missing one is built and published. The work on disk and on
//! the network is done by the caller, one requested action at a time.

pub mod acquire;
pub mod digest;
pub mod distribution;
pub mod entry;
pub mod error;
pub mod guarantees;
pub mod interpreter;
pub mod lexical;
pub mod overlay;
pub mod protocol;
