//! Detection of sandwich attacks in a batch of blockchain transactions.
//!
//! A sandwich attack places one transaction immediately before a victim's
//! decentralized-exchange swap (the front-run, at a higher gas price) and one
//! immediately after (the back-run, at a lower gas price, from the same sender
//! as the front-run), trading the same asset pair in reversed order. The
//! detector is a pure function over an in-memory batch: it enumerates all
//! (victim, front-run, back-run) triples that satisfy the sandwich predicate.

pub mod detector;
pub mod laws;
pub mod paths;
pub mod types;
