//! Local control plane for a supervised proxy core: the two persisted
//! configuration documents, the registry of installed cores, the process
//! supervisor and the rules of the HTTP control API.

pub mod config;
pub mod dirs;
pub mod error;
pub mod registry;
pub mod service;
pub mod store;
pub mod tray;
pub mod web;
