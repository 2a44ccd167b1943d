//! Control-plane library for managing an stunnel-style configuration file:
//! line-oriented section editing, full-document generation, and a mutation
//! engine that backs up, writes, validates and rolls back.

pub mod config;
pub mod durability;
pub mod editor;
pub mod engine;
pub mod generator;
pub mod paths;
pub mod pid;
pub mod reload;
pub mod server;
pub mod status;
pub mod text;
pub mod types;

pub use config::Config;
pub use config::ConfigError;
pub use server::StunnelServer;

