//! What a peer asks for.

pub mod announce_shard_request;
pub mod get_client_shard_info_request;
pub mod get_shared_peers_request;
pub mod get_version_request;
pub mod query_version_request;
pub mod read_request;
pub mod write_request;
