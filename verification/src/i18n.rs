//! The texts of the shell in the two languages it speaks.

use vstd::prelude::*;
use vstd::string::*;
use crate::text::str_eq;

verus! {

/// A language of the user interface.
#[derive(Debug, Clone, Copy, PartialEq, Eq, Structural)]
pub enum Language {
    ZhCN,
    EnUS,
}

/// The language that a tag names: English for `en-US`, Chinese for
/// everything else.
pub open spec fn language_of(tag: Seq<char>) -> Language {
    if tag == "en-US"@ {
        Language::EnUS
    } else {
        Language::ZhCN
    }
}

impl Language {
    /// The language that a tag names: English for `en-US`, Chinese for
    /// everything else.
    pub fn from_str(s: &str) -> (r: Self)
        ensures
            r == language_of(s@),
    {
        if str_eq(s, "en-US") {
            Language::EnUS
        } else {
            Language::ZhCN
        }
    }
}

/// `prefix` followed by `detail`.
fn with_detail(prefix: &str, detail: &str) -> (r: String)
    ensures
        r@ == prefix@ + detail@,
{
    let mut s = String::from_str(prefix);
    s.append(detail);
    s
}

/// The texts of the shell.
pub struct Translations;

impl Translations {
    /// The tray menu entry that shows or hides the main window.
    pub fn tray_show(lang: Language) -> (r: &'static str)
        ensures
            r@ == match lang {
                Language::ZhCN => "显示/隐藏"@,
                Language::EnUS => "Show/Hide"@,
            },
    {
        match lang {
            Language::ZhCN => "显示/隐藏",
            Language::EnUS => "Show/Hide",
        }
    }

    /// The tray menu entry that quits.
    pub fn tray_quit(lang: Language) -> (r: &'static str)
        ensures
            r@ == match lang {
                Language::ZhCN => "退出"@,
                Language::EnUS => "Quit"@,
            },
    {
        match lang {
            Language::ZhCN => "退出",
            Language::EnUS => "Quit",
        }
    }

    /// The title of the window that shows the log of a command.
    pub fn log_window_title(lang: Language, command_name: &str) -> (r: String)
        ensures
            r@ == match lang {
                Language::ZhCN => "命令日志 - "@ + command_name@,
                Language::EnUS => "Command Log - "@ + command_name@,
            },
    {
        match lang {
            Language::ZhCN => with_detail("命令日志 - ", command_name),
            Language::EnUS => with_detail("Command Log - ", command_name),
        }
    }

    /// The message for a main window that is not there.
    pub fn error_get_main_window(lang: Language) -> (r: String)
        ensures
            r@ == match lang {
                Language::ZhCN => "无法获取主窗口"@,
                Language::EnUS => "Failed to get main window"@,
            },
    {
        match lang {
            Language::ZhCN => String::from_str("无法获取主窗口"),
            Language::EnUS => String::from_str("Failed to get main window"),
        }
    }

    /// The message for a tray menu item that could not be created.
    pub fn error_create_menu_item(lang: Language, e: &str) -> (r: String)
        ensures
            r@ == match lang {
                Language::ZhCN => "创建菜单项失败: "@ + e@,
                Language::EnUS => "Failed to create menu item: "@ + e@,
            },
    {
        match lang {
            Language::ZhCN => with_detail("创建菜单项失败: ", e),
            Language::EnUS => with_detail("Failed to create menu item: ", e),
        }
    }

    /// The message for a tray menu that could not be created.
    pub fn error_create_menu(lang: Language, e: &str) -> (r: String)
        ensures
            r@ == match lang {
                Language::ZhCN => "创建菜单失败: "@ + e@,
                Language::EnUS => "Failed to create menu: "@ + e@,
            },
    {
        match lang {
            Language::ZhCN => with_detail("创建菜单失败: ", e),
            Language::EnUS => with_detail("Failed to create menu: ", e),
        }
    }

    /// The message for an icon that could not be loaded.
    pub fn error_load_icon(lang: Language, e: &str) -> (r: String)
        ensures
            r@ == match lang {
                Language::ZhCN => "加载图标失败: "@ + e@,
                Language::EnUS => "Failed to load icon: "@ + e@,
            },
    {
        match lang {
            Language::ZhCN => with_detail("加载图标失败: ", e),
            Language::EnUS => with_detail("Failed to load icon: ", e),
        }
    }

    /// The message for a tray that could not be built.
    pub fn error_build_tray(lang: Language, e: &str) -> (r: String)
        ensures
            r@ == match lang {
                Language::ZhCN => "构建托盘失败: "@ + e@,
                Language::EnUS => "Failed to build tray: "@ + e@,
            },
    {
        match lang {
            Language::ZhCN => with_detail("构建托盘失败: ", e),
            Language::EnUS => with_detail("Failed to build tray: ", e),
        }
    }

    /// The message for a window that could not be shown.
    pub fn error_show_window(lang: Language, e: &str) -> (r: String)
        ensures
            r@ == match lang {
                Language::ZhCN => "显示窗口失败: "@ + e@,
                Language::EnUS => "Failed to show window: "@ + e@,
            },
    {
        match lang {
            Language::ZhCN => with_detail("显示窗口失败: ", e),
            Language::EnUS => with_detail("Failed to show window: ", e),
        }
    }

    /// The message for a window that could not be focused.
    pub fn error_focus_window(lang: Language, e: &str) -> (r: String)
        ensures
            r@ == match lang {
                Language::ZhCN => "聚焦窗口失败: "@ + e@,
                Language::EnUS => "Failed to focus window: "@ + e@,
            },
    {
        match lang {
            Language::ZhCN => with_detail("聚焦窗口失败: ", e),
            Language::EnUS => with_detail("Failed to focus window: ", e),
        }
    }

    /// The message for a window that could not be created.
    pub fn error_create_window(lang: Language, e: &str) -> (r: String)
        ensures
            r@ == match lang {
                Language::ZhCN => "创建窗口失败: "@ + e@,
                Language::EnUS => "Failed to create window: "@ + e@,
            },
    {
        match lang {
            Language::ZhCN => with_detail("创建窗口失败: ", e),
            Language::EnUS => with_detail("Failed to create window: ", e),
        }
    }

    /// The message for a start at login that was switched on.
    pub fn autostart_enabled(lang: Language) -> (r: String)
        ensures
            r@ == match lang {
                Language::ZhCN => "开机自启动已启用"@,
                Language::EnUS => "Autostart enabled"@,
            },
    {
        match lang {
            Language::ZhCN => String::from_str("开机自启动已启用"),
            Language::EnUS => String::from_str("Autostart enabled"),
        }
    }

    /// The message for a start at login that was switched off.
    pub fn autostart_disabled(lang: Language) -> (r: String)
        ensures
            r@ == match lang {
                Language::ZhCN => "开机自启动已禁用"@,
                Language::EnUS => "Autostart disabled"@,
            },
    {
        match lang {
            Language::ZhCN => String::from_str("开机自启动已禁用"),
            Language::EnUS => String::from_str("Autostart disabled"),
        }
    }

    /// The message for a start at login that could not be switched on.
    pub fn autostart_enable_failed(lang: Language, e: &str) -> (r: String)
        ensures
            r@ == match lang {
                Language::ZhCN => "启用开机自启动失败: "@ + e@,
                Language::EnUS => "Failed to enable autostart: "@ + e@,
            },
    {
        match lang {
            Language::ZhCN => with_detail("启用开机自启动失败: ", e),
            Language::EnUS => with_detail("Failed to enable autostart: ", e),
        }
    }

    /// The message for a start at login that could not be switched off.
    pub fn autostart_disable_failed(lang: Language, e: &str) -> (r: String)
        ensures
            r@ == match lang {
                Language::ZhCN => "禁用开机自启动失败: "@ + e@,
                Language::EnUS => "Failed to disable autostart: "@ + e@,
            },
    {
        match lang {
            Language::ZhCN => with_detail("禁用开机自启动失败: ", e),
            Language::EnUS => with_detail("Failed to disable autostart: ", e),
        }
    }

    /// The message for an application path that could not be found.
    pub fn autostart_get_path_failed(lang: Language, e: &str) -> (r: String)
        ensures
            r@ == match lang {
                Language::ZhCN => "获取应用路径失败: "@ + e@,
                Language::EnUS => "Failed to get application path: "@ + e@,
            },
    {
        match lang {
            Language::ZhCN => with_detail("获取应用路径失败: ", e),
            Language::EnUS => with_detail("Failed to get application path: ", e),
        }
    }
}

/// The language that the stored configuration asks for. `config` is what
/// reading the key `language` gave: the language of the stored tag, Chinese
/// where none is stored or the store could not be read.
pub fn get_language_from_db(config: &Result<Option<String>, String>) -> (r: Language)
    ensures
        r == match *config {
            Ok(Some(tag)) => language_of(tag@),
            _ => Language::ZhCN,
        },
{
    match config {
        Ok(Some(tag)) => Language::from_str(tag.as_str()),
        _ => Language::ZhCN,
    }
}

} // verus!
