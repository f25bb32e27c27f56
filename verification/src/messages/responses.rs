//! What a peer answers.

pub mod announce_shard_response;
pub mod get_client_shard_info_response;
pub mod get_shared_peers_response;
pub mod get_version_response;
pub mod query_version_response;
pub mod read_response;
pub mod write_response;
