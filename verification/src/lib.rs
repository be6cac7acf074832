//! Core logic of a session-data viewer: a command mailbox that decouples
//! background task completion from synchronous state mutation, a staged
//! pipeline that drives a loaded file through decompression, parsing and
//! group extraction, and the command processor that applies each command to
//! the application state.
//!
//! The host shell (widget rendering, file dialogs, clipboard access, the
//! async runtimes that actually execute background work) lives outside this
//! crate. It communicates with the verified core through plain values: it
//! feeds [`Command`]s into the mailbox and performs the [`LaunchRequest`]s
//! that the core hands back.

pub mod app;
pub mod background;
pub mod command;
pub mod pipeline;
pub mod selection;
pub mod session;

pub use app::FirefoxSessionDataApp;
pub use command::Command;
