//! A read-through cache in front of a single upstream origin: a bounded
//! memory tier, a disk tier, a negative cache of recent failures, and the
//! protocol that consults them in order before fetching.
//!
//! - [`key`] decides which requests are served and builds their cache keys.
//! - [`clock`] holds the one freshness rule that every tier applies.
//! - [`memory`] and [`failure`] are the two tiers that live in memory.
//! - [`disk`] decides whether a file that was found may be served.
//! - [`upstream`] knows the origin's addresses and what counts as success.
//! - [`request`] is the protocol of one request, as a state machine.
//! - [`laws`] states what the protocol guarantees, and proves it.
//! - [`pattern`], [`payload`] and [`text`] hold what the others stand on.
//!
//! Nothing here opens a file or a socket, takes a lock or waits. A program
//! around the library does that, action by action, as a request asks.

pub mod clock;
pub mod disk;
pub mod failure;
pub mod key;
pub mod laws;
pub mod memory;
pub mod pattern;
pub mod payload;
pub mod request;
pub mod text;
pub mod upstream;
