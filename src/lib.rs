//! The message-passing core of a single-threaded UI runtime: event streams
//! with observers and a primary delivery slot, weak stream handles, scoped
//! locks, and the receiving side of a cross-thread channel.

pub mod stream;
pub mod channel;
pub mod source;
pub mod laws;
