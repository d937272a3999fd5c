//! Verified core of an ambient-lighting daemon: session-token obfuscation,
//! DDP/serial/WLED packet framing, configuration validation and merging,
//! command-line parsing, the HTML of the settings form, and the small value types shared
//! by these parts.

pub mod crypto;
pub mod color;
pub mod configs;
pub mod ddp;
pub mod config_tree;
pub mod capture;
pub mod paths;
pub mod manifest;
pub mod text;
pub mod cli;
pub mod logger;
pub mod hardware;
pub mod debug_output;
pub mod naming;
pub mod form;
pub mod widgets;
pub mod rust_items;
pub mod shinombra_serial;
pub mod wled_drgb;
pub mod units;
pub mod geometry;
pub mod controller;
pub mod backend;
