//! The configuration of a host that runs pots, which are jails with a
//! network configuration: the system configuration, the bridges and the
//! pots, each read from `KEY=value` text, and which pots are running.
//!
//! The library decides and computes on plain values; it opens no file and
//! runs no tool. Its caller reads the texts, walks the directories and runs
//! the jail-listing tool, and hands over what it got.

pub mod bridge;
pub mod dir;
pub mod error;
pub mod net;
pub mod pot_conf;
pub mod run_state;
pub mod system_conf;
pub mod text;
