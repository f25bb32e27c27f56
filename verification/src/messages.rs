//! The messages of the protocol and their wire format.

pub mod message;
pub mod payload;
pub mod requests;
pub mod responses;
