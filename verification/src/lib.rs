//! A stability pool module for a federated mint.

pub mod api;
pub mod client;
pub mod clock;
pub mod config;
pub mod db;
pub mod encoding;
pub mod generator;
pub mod keys;
pub mod ledger;
pub mod module;
pub mod oracle;
pub mod proposal;
pub mod server;
