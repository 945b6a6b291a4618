//! A key/value cache in which every entry expires a fixed time after its
//! insertion.
//!
//! - `config`: the time-to-live and the two delays of the eviction loop.
//! - `map`: the store capability (insert, remove) and its impls for
//!   `HashMap` and `BTreeMap`.
//! - `entry`: expiration records and the time left before each falls due.
//! - `queue`: the expiration queue, insertion into store and queue, the
//!   eviction pass and the eviction loop's sleep length.
//! - `laws`: what holds across insertions and eviction passes.

pub mod config;
pub mod entry;
pub mod laws;
pub mod map;
pub mod queue;
