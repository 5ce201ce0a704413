//! Core engine of a multi-host monitoring and remote-command console.
//!
//! The library schedules monitoring probes and operator commands over
//! transport connectors, caches responses, and merges results into
//! per-host display state.  All transport and file I/O is left to the
//! embedding application; the engine exposes its decisions as plain
//! values (pending connector requests and state-update messages).

pub mod cache;
pub mod cli;
pub mod command;
pub mod command_handler;
pub mod configuration;
pub mod connection;
pub mod connection_manager;
pub mod data_point;
pub mod enums;
pub mod frontend;
pub mod host;
pub mod host_manager;
pub mod json;
pub mod module_factory;
pub mod module_spec;
pub mod monitor_manager;
pub mod monitoring;
pub mod numfmt;
pub mod platform_info;
pub mod response;
pub mod string_map;
pub mod utils;
pub mod version;
