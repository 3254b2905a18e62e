//! Warlock: the decisions of a control plane for Firecracker microVMs.

pub mod app;
pub mod capacity;
pub mod command;
pub mod decimal;
pub mod error;
pub mod firecracker;
pub mod gateway_client;
pub mod handlers;
pub mod ids;
pub mod platform;
pub mod ssh;
pub mod text;
pub mod vm;
