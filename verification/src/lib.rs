//! Sigil runs named shell commands on demand and shows what they print and
//! how they end.
//!
//! The heart of the crate is the execution registry in [`command_runner`]:
//! a state machine that records for every command whether it runs, what it
//! logged and how it ended. Its mathematical form is in [`model`], and what
//! holds of it whatever happens is proved in [`laws`]. [`elevation`] decides
//! how a command is started, [`notification`] what the user is told at its
//! end.
//!
//! The registry neither starts processes nor reads files: its host does,
//! and reports. The remaining modules hold the decisions of the shell
//! around the registry (texts, configuration, windows, start at login) in
//! the same way, as functions from what the host found to what it does
//! next.

pub mod autostart;
pub mod command_runner;
pub mod commands;
pub mod config;
pub mod constants;
pub mod db;
pub mod elevation;
pub mod error;
pub mod i18n;
pub mod laws;
pub mod logger;
pub mod model;
pub mod monitor;
pub mod notification;
pub mod single_instance;
pub mod state;
pub mod text;
pub mod window;
