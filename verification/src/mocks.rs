//! An in-memory store and an in-memory network node.
pub mod db;
pub mod laws;
pub mod p2p;
pub mod store_laws;
pub mod table;
