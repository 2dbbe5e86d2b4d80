//! Core of a peer-to-peer file request service: domain model, storage, node decisions and the
//! cryptographic session state, with every operation specified and proved.
pub mod api_server;
pub mod bounded_list;
pub mod brain;
pub mod crypto;
pub mod daemon;
pub mod db;
pub mod direct_fs_controller;
pub mod domain_models;
pub mod domain_proto_conversion;
pub mod endpoint;
pub mod filerequest_drive_handler;
pub mod i18n;
pub mod io_controller;
pub mod mocks;
pub mod notification;
pub mod p2p;
pub mod rolling_nonce_window;
pub mod sqlite;
pub mod text;
pub mod ttlmap;
pub mod util;
pub mod wire;
