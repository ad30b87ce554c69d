//! Supervision of a single long-lived worker process, the sidecar, for a
//! desktop application shell.
//!
//! The library decides; the host acts. Launching the worker, writing to its
//! input stream, reading its output, touching the disk and locking are the
//! host's work. Whatever has to be decided about them is decided here:
//!
//! - [`registry`]: the slot that holds the handle of the running worker;
//! - [`supervisor`]: spawning the worker at most once, and shutting it down
//!   by a handshake over its input stream;
//! - [`relay`]: what becomes of each event of the worker's output;
//! - [`bootstrap`]: the directories and seed files under the application
//!   root, and what to do about each;
//! - [`setup`]: the order of the steps at application start;
//! - [`commands`]: what the commands answer to the user interface;
//! - [`desktop`] and [`mobile`]: where a shell starts on a [`platform`].

pub mod bootstrap;
pub mod commands;
pub mod desktop;
pub mod mobile;
pub mod platform;
pub mod registry;
pub mod relay;
pub mod setup;
pub mod supervisor;

pub use desktop::desktop_entry_point;
pub use mobile::mobile_entry_point;
