//! The decisions of the service: what follows from an action of a client or of the network.
pub mod action;
pub mod action_client;
pub mod action_p2p;
pub mod client_laws;
pub mod error;
pub mod exchange;
pub mod flows;
pub mod handle_action;
pub mod laws;
pub mod node_laws;
pub mod stale_cleanup;
pub mod start_laws;
pub mod state;
pub mod types;
