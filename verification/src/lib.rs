//! A connection-lifecycle adapter for a sharded key-value store cluster.
//!
//! The adapter lets a generic connection pool manage sessions against a redis
//! cluster: it validates the seed addresses once at construction time, opens a
//! cluster session on demand with the stored credential and routing
//! preference, answers liveness queries about a connection, and never retains
//! a connection itself.

mod addr;
mod cluster;
mod errors;
mod manager;

pub use manager::ClusterConnection;
pub use manager::ManagerView;
pub use manager::RedisClusterConnectionManager;
pub use manager::SessionParams;
pub use manager::all_resolve;
pub use manager::describes_first_offender;
pub use manager::effective_credential;
pub use manager::lemma_credential_fallback;
pub use manager::lemma_seeds_preserve_count_and_order;
pub use manager::lemma_set_password_reaches_session;
pub use manager::lemma_set_readonly_reaches_session;
pub use manager::open_accepts;
pub use manager::opened_session;
pub use manager::resolved_nodes;
pub use manager::session_credential;
pub use manager::session_nodes;
pub use manager::session_readonly;
pub use manager::with_password;
pub use manager::with_readonly;

pub use errors::ConfigError;
pub use errors::ConnectionError;
pub use errors::ValidationError;
pub use addr::NodeAddress;
pub use addr::NodeAddressView;
pub use addr::ResolvedAddr;
pub use addr::resolve_spec;
pub use addr::seed_views;
pub use addr::uniform_credential;
