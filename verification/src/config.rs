//! Reading the configuration: what a stored value means, and what is
//! stored for a setting.
//!
//! The store itself is the host's. A getter takes what the host read from
//! the store, a setter says what the host has to write, and `get` and `set`
//! turn the store's answer into the application's.

use vstd::prelude::*;
use vstd::string::*;
use crate::constants::config_keys::{AUTO_START, LANGUAGE};
use crate::constants::DEFAULT_LANGUAGE;
use crate::error::{AppError, AppResult};
use crate::text::str_eq;

verus! {

/// A value to store under a key.
#[derive(Debug)]
pub struct ConfigWrite {
    pub key: String,
    pub value: String,
}

/// The stored text for a switch.
pub open spec fn switch_text(enabled: bool) -> Seq<char> {
    if enabled {
        "true"@
    } else {
        "false"@
    }
}

/// Access to the stored configuration.
pub struct ConfigManager;

impl ConfigManager {
    /// The application's answer to a read of the store: the value as read,
    /// or a `Config` error that quotes the store's.
    pub fn get(read: Result<Option<String>, String>) -> (r: AppResult<Option<String>>)
        ensures
            match read {
                Ok(value) => r == Ok::<Option<String>, AppError>(value),
                Err(e) => r matches Err(AppError::Config(m)) && m@ == "获取配置失败: "@ + e@,
            },
    {
        match read {
            Ok(value) => Ok(value),
            Err(e) => {
                let mut m = String::from_str("获取配置失败: ");
                m.append(e.as_str());
                Err(AppError::Config(m))
            },
        }
    }

    /// The application's answer to a write to the store: success, or a
    /// `Config` error that quotes the store's.
    pub fn set(written: Result<(), String>) -> (r: AppResult<()>)
        ensures
            match written {
                Ok(_) => r is Ok,
                Err(e) => r matches Err(AppError::Config(m)) && m@ == "设置配置失败: "@ + e@,
            },
    {
        match written {
            Ok(_) => Ok(()),
            Err(e) => {
                let mut m = String::from_str("设置配置失败: ");
                m.append(e.as_str());
                Err(AppError::Config(m))
            },
        }
    }

    /// The configured language: the value read under the key `language`,
    /// or the default where none is stored or the store could not be read.
    pub fn get_language(read: Result<Option<String>, String>) -> (r: String)
        ensures
            r@ == match read {
                Ok(Some(value)) => value@,
                _ => DEFAULT_LANGUAGE@,
            },
    {
        match read {
            Ok(Some(value)) => value,
            _ => String::from_str(DEFAULT_LANGUAGE),
        }
    }

    /// What is stored for the language.
    pub fn set_language(language: &str) -> (r: ConfigWrite)
        ensures
            r.key@ == LANGUAGE@,
            r.value@ == language@,
    {
        ConfigWrite { key: String::from_str(LANGUAGE), value: String::from_str(language) }
    }

    /// Whether the start at login is configured: exactly when the value
    /// read under the key `auto_start` is `true`.
    pub fn get_autostart(read: Result<Option<String>, String>) -> (r: bool)
        ensures
            r == (read matches Ok(Some(value)) && value@ == "true"@),
    {
        match read {
            Ok(Some(value)) => str_eq(value.as_str(), "true"),
            _ => false,
        }
    }

    /// What is stored for the start at login.
    pub fn set_autostart(enabled: bool) -> (r: ConfigWrite)
        ensures
            r.key@ == AUTO_START@,
            r.value@ == switch_text(enabled),
    {
        ConfigWrite {
            key: String::from_str(AUTO_START),
            value: String::from_str(
                if enabled {
                    "true"
                } else {
                    "false"
                },
            ),
        }
    }
}

/// What the environment of the process says.
pub struct EnvConfig;

impl EnvConfig {
    /// The value of an environment variable, or `default` where the
    /// variable is not set. `value` is what the host read.
    pub fn get_or_default(value: Option<String>, default: &str) -> (r: String)
        ensures
            r@ == match value {
                Some(v) => v@,
                None => default@,
            },
    {
        match value {
            Some(v) => v,
            None => String::from_str(default),
        }
    }

    /// Whether this is a release build: exactly when it is no debug build.
    /// `debug_build` is what the host's build says of itself.
    pub fn is_release(debug_build: bool) -> (r: bool)
        ensures
            r == !debug_build,
    {
        !debug_build
    }

    /// Whether the log level asks for debugging: exactly when the variable
    /// `RUST_LOG`, whose value the host read, is `debug`.
    pub fn is_debug(rust_log: Option<String>) -> (r: bool)
        ensures
            r == (rust_log matches Some(v) && v@ == "debug"@),
    {
        let level = Self::get_or_default(rust_log, "info");
        proof {
            reveal_strlit("info");
            reveal_strlit("debug");
            assert("info"@.len() == 4);
            assert("debug"@.len() == 5);
        }
        str_eq(level.as_str(), "debug")
    }
}

} // verus!
