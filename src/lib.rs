//! Terminal emulation core: a cell grid with scrollback, an escape-sequence
//! interpreter that drives it, and search over its text; besides, the color
//! themes, the SSH client configuration reader and a few text helpers of an
//! SSH client built around it.

pub mod color;
pub mod cell;
pub mod model;
pub mod buffer;
pub mod sgr;
pub mod interp;
pub mod terminal;
pub mod laws;
pub mod helpers;
pub mod ssh_config;
pub mod vt;
pub mod themes;
pub mod search;
pub mod config_parser;
pub mod connection;
