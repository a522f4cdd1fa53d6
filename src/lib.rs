//! A small networked key-value store: the storage engine, the command model,
//! the request-handler chain and the per-connection protocol state machine.
pub mod client;
pub mod command;
pub mod config;
pub mod connection;
pub mod service;
pub mod storage;
pub mod wire;

pub use command::{Command, Response};
