//! A small sharded, versioned key/value store.
//!
//! Three kinds of node work together. The info server keeps the directory of
//! the shards. A write shard takes the writes of one slot, numbers them and
//! keeps them in an append log. A read shard follows the log of its slot's
//! writer, one version at a time, and answers reads. A client asks the info
//! server where the shards are and sends each key to the shards of one slot.
//!
//! This crate holds what the nodes decide. Every function has a contract, and
//! every contract is machine-checked but two: `utils::random::choose_one`
//! and `utils::text::text_of` call code that is not verified, and say what
//! they take on trust.
//!
//! - `wire` and `messages`: the frame and the fourteen payload formats, with
//!   the proof that decoding undoes encoding;
//! - `io`: the dispatch of a message to the callback of its kind, and the
//!   assembly of a frame from the pieces in which it arrives;
//! - `info`: the directory and its rules of assignment;
//! - `store`, `write_shard`, `read_shard`: the log, the map that it leaves
//!   behind, and the rule by which a reader applies versions in order;
//! - `client`: the routing of a key to its slot.
//!
//! Sockets, timers and the command line are left to the program that uses
//! the crate: it reads bytes and hands them in, and sends what comes back.

pub mod client;
pub mod info;
pub mod io;
pub mod messages;
pub mod read_shard;
pub mod store;
pub mod utils;
pub mod wire;
pub mod write_shard;
