//! Names and numbers that the whole application shares.

use vstd::prelude::*;

pub mod command;
pub mod config_keys;
pub mod monitor;

verus! {

/// The name of the application.
pub const APP_NAME: &'static str = "sigil";

/// The file name of the database.
pub const DB_FILE_NAME: &'static str = "sigil.db";

/// The language used where none is configured.
pub const DEFAULT_LANGUAGE: &'static str = "zh-CN";

} // verus!
