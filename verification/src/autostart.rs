//! The start at login: what the registry's answers mean.
//!
//! The registry is the host's. The host reports how far it came, and the
//! functions here say what the caller is told.

use vstd::prelude::*;
use vstd::string::*;
use crate::text::{contains_text, str_contains};

verus! {

/// How far the host came with the registry.
#[derive(Debug)]
pub enum RegistryReport {
    /// The platform keeps no such registry.
    Unsupported,
    /// The key of the programs started at login could not be opened.
    OpenFailed(String),
    /// The key was opened, and the value could not be written, deleted or
    /// read; the text is the registry's error.
    Failed(String),
    /// The value was written or deleted, or was found.
    Done,
}

/// What is said where the platform has no start at login.
pub open spec fn unsupported_text() -> Seq<char> {
    "开机自启动功能仅在 Windows 平台可用"@
}

/// A registry error that says that the value is not there.
pub open spec fn says_missing(message: Seq<char>) -> bool {
    contains_text(message, "not found"@) || contains_text(message, "系统找不到"@)
}

/// Whether a registry error says that the value is not there.
pub fn is_missing_value(message: &str) -> (r: bool)
    ensures
        r == says_missing(message@),
{
    str_contains(message, "not found") || str_contains(message, "系统找不到")
}

fn quoted(prefix: &str, detail: &str) -> (r: String)
    ensures
        r@ == prefix@ + detail@,
{
    let mut s = String::from_str(prefix);
    s.append(detail);
    s
}

/// The text of an optional failure.
pub open spec fn failure_text(r: Result<(), String>) -> Result<(), Seq<char>> {
    match r {
        Ok(_) => Ok(()),
        Err(e) => Err(e@),
    }
}

/// The answer to switching the start at login on.
pub fn enable_autostart(report: &RegistryReport) -> (r: Result<(), String>)
    ensures
        failure_text(r) == match *report {
            RegistryReport::Unsupported => Err::<(), Seq<char>>(unsupported_text()),
            RegistryReport::OpenFailed(e) => Err("无法打开注册表: "@ + e@),
            RegistryReport::Failed(e) => Err("无法设置注册表值: "@ + e@),
            RegistryReport::Done => Ok(()),
        },
{
    match report {
        RegistryReport::Unsupported => Err(
            String::from_str("开机自启动功能仅在 Windows 平台可用"),
        ),
        RegistryReport::OpenFailed(e) => Err(quoted("无法打开注册表: ", e.as_str())),
        RegistryReport::Failed(e) => Err(quoted("无法设置注册表值: ", e.as_str())),
        RegistryReport::Done => Ok(()),
    }
}

/// The answer to switching the start at login off. A value that is not
/// there any more counts as deleted.
pub fn disable_autostart(report: &RegistryReport) -> (r: Result<(), String>)
    ensures
        failure_text(r) == match *report {
            RegistryReport::Unsupported => Err::<(), Seq<char>>(unsupported_text()),
            RegistryReport::OpenFailed(e) => Err("无法打开注册表: "@ + e@),
            RegistryReport::Failed(e) => if says_missing(e@) {
                Ok(())
            } else {
                Err("无法删除注册表值: "@ + e@)
            },
            RegistryReport::Done => Ok(()),
        },
{
    match report {
        RegistryReport::Unsupported => Err(
            String::from_str("开机自启动功能仅在 Windows 平台可用"),
        ),
        RegistryReport::OpenFailed(e) => Err(quoted("无法打开注册表: ", e.as_str())),
        RegistryReport::Failed(e) => {
            if is_missing_value(e.as_str()) {
                Ok(())
            } else {
                Err(quoted("无法删除注册表值: ", e.as_str()))
            }
        },
        RegistryReport::Done => Ok(()),
    }
}

/// The text of an optional failure, beside the answer.
pub open spec fn answer_text(r: Result<bool, String>) -> Result<bool, Seq<char>> {
    match r {
        Ok(b) => Ok(b),
        Err(e) => Err(e@),
    }
}

/// Whether the start at login is switched on. A platform without it has it
/// switched off, and so has a registry without the value.
pub fn is_autostart_enabled(report: &RegistryReport) -> (r: Result<bool, String>)
    ensures
        answer_text(r) == match *report {
            RegistryReport::Unsupported => Ok::<bool, Seq<char>>(false),
            RegistryReport::OpenFailed(e) => Err("无法打开注册表: "@ + e@),
            RegistryReport::Failed(e) => if says_missing(e@) {
                Ok(false)
            } else {
                Err("无法读取注册表值: "@ + e@)
            },
            RegistryReport::Done => Ok(true),
        },
{
    match report {
        RegistryReport::Unsupported => Ok(false),
        RegistryReport::OpenFailed(e) => Err(quoted("无法打开注册表: ", e.as_str())),
        RegistryReport::Failed(e) => {
            if is_missing_value(e.as_str()) {
                Ok(false)
            } else {
                Err(quoted("无法读取注册表值: ", e.as_str()))
            }
        },
        RegistryReport::Done => Ok(true),
    }
}

/// What brings the registry in line with the configuration.
#[derive(Debug, Clone, Copy, PartialEq, Eq, Structural)]
pub enum AutostartSync {
    /// Write the value.
    Enable,
    /// Delete the value.
    Disable,
    /// Leave the registry as it is.
    Keep,
}

/// What brings the registry in line with the configuration at start-up:
/// the value is written where the start at login is configured and not
/// registered, deleted where it is registered and not configured, and
/// left alone where both agree.
pub fn sync_action(configured: bool, registered: bool) -> (r: AutostartSync)
    ensures
        r == if configured && !registered {
            AutostartSync::Enable
        } else if !configured && registered {
            AutostartSync::Disable
        } else {
            AutostartSync::Keep
        },
{
    if configured && !registered {
        AutostartSync::Enable
    } else if !configured && registered {
        AutostartSync::Disable
    } else {
        AutostartSync::Keep
    }
}

} // verus!
