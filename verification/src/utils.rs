//! Helpers that more than one node uses.

pub mod random;
pub mod search;
pub mod test_client;
pub mod text;
