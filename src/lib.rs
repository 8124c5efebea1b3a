//! A typed client layer for a blockchain node's JSON-RPC surface.
pub mod json;
pub mod wire;
pub mod errors;
pub mod message;
pub mod types;
pub mod blocks;
pub mod transactions;
pub mod changes;
pub mod config;
pub mod network_info;
pub mod connection;
pub mod views;
pub mod provider;
pub mod keys;
pub mod contract;
pub mod wallet;
pub mod account;
