//! Commit-and-trigger authorization: a record commits to the exact shape of a
//! future instruction, lives at an address derived from its own content, and
//! gates each later trigger behind a count/time condition.

pub mod account;
pub mod agreement;
pub mod client;
pub mod codec;
pub mod program;
pub mod pubkey;
