//! What the transport decides: which callback a message goes to, what is
//! sent back, and when a frame that arrives in pieces is whole.

pub mod read;
pub mod router;
