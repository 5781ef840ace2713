//! Control and status client for a running MoC (music on console) server.
//!
//! The library turns the server's `--info` report into a [`MocInfo`] snapshot and
//! turns a control request into the argument list of the `mocp` command. Running
//! the command is left to the caller.

/// Snapshot, source, state and error types.
pub mod common;
/// Builder and accessor methods of [`MocInfo`].
pub mod moc_info;
/// Parser of the server's status report.
pub mod status;
/// Control requests and the arguments that carry them.
pub mod command;
/// The player handle and the control interface.
pub mod moc;

pub use command::MocCommand;
pub use common::{MocControl, MocError, MocInfo, MocSource, MocState};
pub use moc::{Moc, MocInterface};
pub use status::parse_info;
