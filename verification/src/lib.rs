//! Host-side inventory and health reporting for a node that runs a local
//! conductor: classification of installed applications, health and usage
//! aggregation, the request/response discipline of the conductor connection,
//! and the signing identity under which a report is sent.

pub mod app_health;
pub mod application;
pub mod category;
pub mod config;
pub mod error;
pub mod keypair;
pub mod retry;
pub mod stats;
pub mod text;
pub mod usage;
pub mod websocket;
