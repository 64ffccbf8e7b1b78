//! Capability-gated dispatch for hash compression functions, with portable
//! kernels proved against the round definitions of each algorithm.

pub mod caps;
pub mod chain;
pub mod md5;
pub mod registry;
pub mod sha1;
pub mod sha2;
pub mod whirlpool;
pub mod words;
