//! The keys of the stored configuration.

use vstd::prelude::*;

verus! {

/// The key under which the start at login is stored.
pub const AUTO_START: &'static str = "auto_start";

/// The key under which the language is stored.
pub const LANGUAGE: &'static str = "language";

} // verus!
