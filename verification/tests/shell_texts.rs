use sigil::autostart::{
    disable_autostart, enable_autostart, is_autostart_enabled, is_missing_value, sync_action,
    AutostartSync, RegistryReport,
};
use sigil::commands::{
    create_input, execution_params, export_all, ExportCommand, ImportResult,
};
use sigil::config::{ConfigManager, EnvConfig};
use sigil::constants::{APP_NAME, DB_FILE_NAME, DEFAULT_LANGUAGE};
use sigil::db::{update_columns, update_statement, Command, UpdateColumn, UpdateCommandInput};
use sigil::error::AppError;
use sigil::i18n::{get_language_from_db, Language, Translations};
use sigil::logger::{format_init_error, format_record, log_level};
use sigil::monitor::{disk_usage, DiskSpace, DiskUsage};
use sigil::notification::build_notification;
use sigil::single_instance::{
    activate_existing_instance, activation_message, activation_succeeded, check_single_instance,
    instance_exists, is_activation_request, release_mutex, ActivationAttempt, MutexAttempt,
};
use sigil::state::CommandStatus;
use sigil::window::{
    activate_main_window, log_window_label, log_window_url, reveal_main_window,
    toggle_main_window, tray_menu_action, TrayAction, WindowPlan,
};

// ---------------------------------------------------------------- languages

#[test]
fn language_tags() {
    assert_eq!(Language::from_str("en-US"), Language::EnUS);
    assert_eq!(Language::from_str("zh-CN"), Language::ZhCN);
    assert_eq!(Language::from_str("en-us"), Language::ZhCN);
    assert_eq!(Language::from_str(""), Language::ZhCN);
    assert_eq!(Language::from_str("fr-FR"), Language::ZhCN);
}

#[test]
fn language_from_the_store() {
    assert_eq!(get_language_from_db(&Ok(Some("en-US".to_string()))), Language::EnUS);
    assert_eq!(get_language_from_db(&Ok(Some("zh-CN".to_string()))), Language::ZhCN);
    assert_eq!(get_language_from_db(&Ok(None)), Language::ZhCN);
    assert_eq!(get_language_from_db(&Err("locked".to_string())), Language::ZhCN);
}

#[test]
fn translations_in_chinese() {
    let l = Language::ZhCN;
    assert_eq!(Translations::tray_show(l), "显示/隐藏");
    assert_eq!(Translations::tray_quit(l), "退出");
    assert_eq!(Translations::log_window_title(l, "备份"), "命令日志 - 备份");
    assert_eq!(Translations::error_get_main_window(l), "无法获取主窗口");
    assert_eq!(Translations::error_create_menu_item(l, "e"), "创建菜单项失败: e");
    assert_eq!(Translations::error_create_menu(l, "e"), "创建菜单失败: e");
    assert_eq!(Translations::error_load_icon(l, "e"), "加载图标失败: e");
    assert_eq!(Translations::error_build_tray(l, "e"), "构建托盘失败: e");
    assert_eq!(Translations::error_show_window(l, "e"), "显示窗口失败: e");
    assert_eq!(Translations::error_focus_window(l, "e"), "聚焦窗口失败: e");
    assert_eq!(Translations::error_create_window(l, "e"), "创建窗口失败: e");
    assert_eq!(Translations::autostart_enabled(l), "开机自启动已启用");
    assert_eq!(Translations::autostart_disabled(l), "开机自启动已禁用");
    assert_eq!(Translations::autostart_enable_failed(l, "e"), "启用开机自启动失败: e");
    assert_eq!(Translations::autostart_disable_failed(l, "e"), "禁用开机自启动失败: e");
    assert_eq!(Translations::autostart_get_path_failed(l, "e"), "获取应用路径失败: e");
}

#[test]
fn translations_in_english() {
    let l = Language::EnUS;
    assert_eq!(Translations::tray_show(l), "Show/Hide");
    assert_eq!(Translations::tray_quit(l), "Quit");
    assert_eq!(Translations::log_window_title(l, "backup"), "Command Log - backup");
    assert_eq!(Translations::error_get_main_window(l), "Failed to get main window");
    assert_eq!(Translations::error_create_menu_item(l, "e"), "Failed to create menu item: e");
    assert_eq!(Translations::error_create_menu(l, "e"), "Failed to create menu: e");
    assert_eq!(Translations::error_load_icon(l, "e"), "Failed to load icon: e");
    assert_eq!(Translations::error_build_tray(l, "e"), "Failed to build tray: e");
    assert_eq!(Translations::error_show_window(l, "e"), "Failed to show window: e");
    assert_eq!(Translations::error_focus_window(l, "e"), "Failed to focus window: e");
    assert_eq!(Translations::error_create_window(l, "e"), "Failed to create window: e");
    assert_eq!(Translations::autostart_enabled(l), "Autostart enabled");
    assert_eq!(Translations::autostart_disabled(l), "Autostart disabled");
    assert_eq!(Translations::autostart_enable_failed(l, "e"), "Failed to enable autostart: e");
    assert_eq!(Translations::autostart_disable_failed(l, "e"), "Failed to disable autostart: e");
    assert_eq!(
        Translations::autostart_get_path_failed(l, "e"),
        "Failed to get application path: e"
    );
}

// ------------------------------------------------------------ notifications

#[test]
fn notifications() {
    let n = build_notification("备份", CommandStatus::Success, Some(0)).unwrap();
    assert_eq!(n.title, "命令执行成功");
    assert_eq!(n.body, "命令 \"备份\" 已成功完成");
    let n = build_notification("备份", CommandStatus::Failed, Some(-2)).unwrap();
    assert_eq!(n.title, "命令执行失败");
    assert_eq!(n.body, "命令 \"备份\" 执行失败 (退出码: -2)");
    let n = build_notification("备份", CommandStatus::Failed, None).unwrap();
    assert_eq!(n.title, "命令执行失败");
    assert_eq!(n.body, "命令 \"备份\" 执行失败");
    assert!(build_notification("备份", CommandStatus::Running, None).is_none());
    assert!(build_notification("备份", CommandStatus::Stopped, None).is_none());
    assert!(build_notification("备份", CommandStatus::Idle, Some(0)).is_none());
}

// ------------------------------------------------------------------ windows

#[test]
fn log_window_names() {
    assert_eq!(log_window_label(7), "log-7");
    assert_eq!(log_window_label(-7), "log--7");
    assert_eq!(log_window_label(0), "log-0");
}

#[test]
fn log_window_address_is_percent_encoded() {
    assert_eq!(log_window_url(7, "build"), "/#/log/7?name=build");
    assert_eq!(log_window_url(7, "a b"), "/#/log/7?name=a%20b");
    assert_eq!(log_window_url(7, "a-b_c.d~e"), "/#/log/7?name=a-b_c.d~e");
    assert_eq!(log_window_url(7, "a/b?c=d&e"), "/#/log/7?name=a%2Fb%3Fc%3Dd%26e");
    assert_eq!(log_window_url(12, "备份"), "/#/log/12?name=%E5%A4%87%E4%BB%BD");
    assert_eq!(log_window_url(1, ""), "/#/log/1?name=");
    assert_eq!(log_window_url(1, "é\u{7f}"), "/#/log/1?name=%C3%A9%7F");
}

fn plan(hide: bool, unminimize: bool, show: bool, focus: bool) -> WindowPlan {
    WindowPlan { hide, unminimize, show, focus }
}

#[test]
fn main_window_decisions() {
    // the tray menu hides a window that is in view
    assert_eq!(toggle_main_window(Some(true), Some(false)), plan(true, false, false, false));
    assert_eq!(toggle_main_window(Some(true), None), plan(true, false, false, false));
    // and brings any other to the front
    assert_eq!(toggle_main_window(Some(true), Some(true)), plan(false, true, false, true));
    assert_eq!(toggle_main_window(Some(false), Some(false)), plan(false, false, true, true));
    assert_eq!(toggle_main_window(Some(false), Some(true)), plan(false, true, true, true));
    assert_eq!(toggle_main_window(None, None), plan(false, false, true, true));
    // a click on the icon never hides
    assert_eq!(reveal_main_window(Some(true), Some(false)), plan(false, false, false, true));
    assert_eq!(reveal_main_window(Some(false), Some(true)), plan(false, true, true, true));
    assert_eq!(reveal_main_window(None, None), plan(false, false, true, true));
    // a second start takes an unknown visibility as visible
    assert_eq!(activate_main_window(None, None), plan(false, false, false, true));
    assert_eq!(activate_main_window(Some(false), None), plan(false, false, true, true));
    assert_eq!(activate_main_window(Some(true), Some(true)), plan(false, true, false, true));
}

#[test]
fn tray_menu_entries() {
    assert_eq!(tray_menu_action("show"), TrayAction::Toggle);
    assert_eq!(tray_menu_action("quit"), TrayAction::Quit);
    assert_eq!(tray_menu_action("Show"), TrayAction::Ignore);
    assert_eq!(tray_menu_action(""), TrayAction::Ignore);
}

// ---------------------------------------------------------- single instance

#[test]
fn single_instance_decisions() {
    assert!(!instance_exists(MutexAttempt::Created));
    assert!(instance_exists(MutexAttempt::AlreadyExists));
    assert!(instance_exists(MutexAttempt::Failed));
    assert_eq!(&activation_message(), b"activate");
    assert!(is_activation_request(b"activate"));
    assert!(!is_activation_request(b"activatE"));
    assert!(!is_activation_request(b"Activate"));
    assert!(!is_activation_request(&[0u8; 8]));
    assert!(activation_succeeded(ActivationAttempt::Sent));
    assert!(activation_succeeded(ActivationAttempt::Unreachable));
    assert!(!activation_succeeded(ActivationAttempt::SendFailed));
    assert_eq!(check_single_instance(), (false, Some(())));
    assert!(!activate_existing_instance());
    release_mutex(());
}

// ---------------------------------------------------------------- autostart

#[test]
fn autostart_answers() {
    let unsupported = "开机自启动功能仅在 Windows 平台可用";
    assert_eq!(enable_autostart(&RegistryReport::Unsupported), Err(unsupported.to_string()));
    assert_eq!(disable_autostart(&RegistryReport::Unsupported), Err(unsupported.to_string()));
    assert_eq!(is_autostart_enabled(&RegistryReport::Unsupported), Ok(false));

    let open = RegistryReport::OpenFailed("denied".to_string());
    assert_eq!(enable_autostart(&open), Err("无法打开注册表: denied".to_string()));
    assert_eq!(disable_autostart(&open), Err("无法打开注册表: denied".to_string()));
    assert_eq!(is_autostart_enabled(&open), Err("无法打开注册表: denied".to_string()));

    let failed = RegistryReport::Failed("denied".to_string());
    assert_eq!(enable_autostart(&failed), Err("无法设置注册表值: denied".to_string()));
    assert_eq!(disable_autostart(&failed), Err("无法删除注册表值: denied".to_string()));
    assert_eq!(is_autostart_enabled(&failed), Err("无法读取注册表值: denied".to_string()));

    let missing = RegistryReport::Failed("The value was not found.".to_string());
    assert_eq!(enable_autostart(&missing), Err("无法设置注册表值: The value was not found.".to_string()));
    assert_eq!(disable_autostart(&missing), Ok(()));
    assert_eq!(is_autostart_enabled(&missing), Ok(false));
    let missing = RegistryReport::Failed("系统找不到指定的文件。".to_string());
    assert_eq!(disable_autostart(&missing), Ok(()));
    assert_eq!(is_autostart_enabled(&missing), Ok(false));

    assert_eq!(enable_autostart(&RegistryReport::Done), Ok(()));
    assert_eq!(disable_autostart(&RegistryReport::Done), Ok(()));
    assert_eq!(is_autostart_enabled(&RegistryReport::Done), Ok(true));

    assert!(is_missing_value("not found"));
    assert!(is_missing_value("系统找不到"));
    assert!(!is_missing_value("Not Found"));
    assert!(!is_missing_value(""));
}

#[test]
fn autostart_is_brought_in_line() {
    assert_eq!(sync_action(true, false), AutostartSync::Enable);
    assert_eq!(sync_action(false, true), AutostartSync::Disable);
    assert_eq!(sync_action(true, true), AutostartSync::Keep);
    assert_eq!(sync_action(false, false), AutostartSync::Keep);
}

// ------------------------------------------------------------ configuration

#[test]
fn constants() {
    assert_eq!(APP_NAME, "sigil");
    assert_eq!(DB_FILE_NAME, "sigil.db");
    assert_eq!(DEFAULT_LANGUAGE, "zh-CN");
    assert_eq!(sigil::constants::config_keys::AUTO_START, "auto_start");
    assert_eq!(sigil::constants::config_keys::LANGUAGE, "language");
    assert_eq!(sigil::constants::command::MAX_LOG_LINES, 10000);
    assert_eq!(sigil::constants::command::STATUS_UPDATE_INTERVAL_MS, 1000);
    assert_eq!(sigil::constants::monitor::HIGH_FREQUENCY_INTERVAL_MS, 1000);
    assert_eq!(sigil::constants::monitor::LOW_FREQUENCY_INTERVAL_MS, 60000);
}

#[test]
fn configuration_reads() {
    match ConfigManager::get(Ok(Some("v".to_string()))) {
        Ok(Some(v)) => assert_eq!(v, "v"),
        other => panic!("unexpected: {:?}", other),
    }
    assert!(matches!(ConfigManager::get(Ok(None)), Ok(None)));
    match ConfigManager::get(Err("locked".to_string())) {
        Err(AppError::Config(m)) => assert_eq!(m, "获取配置失败: locked"),
        other => panic!("unexpected: {:?}", other),
    }
    assert!(ConfigManager::set(Ok(())).is_ok());
    match ConfigManager::set(Err("locked".to_string())) {
        Err(AppError::Config(m)) => assert_eq!(m, "设置配置失败: locked"),
        other => panic!("unexpected: {:?}", other),
    }
    assert_eq!(ConfigManager::get_language(Ok(Some("en-US".to_string()))), "en-US");
    assert_eq!(ConfigManager::get_language(Ok(None)), "zh-CN");
    assert_eq!(ConfigManager::get_language(Err("locked".to_string())), "zh-CN");
    assert!(ConfigManager::get_autostart(Ok(Some("true".to_string()))));
    assert!(!ConfigManager::get_autostart(Ok(Some("True".to_string()))));
    assert!(!ConfigManager::get_autostart(Ok(Some("false".to_string()))));
    assert!(!ConfigManager::get_autostart(Ok(None)));
    assert!(!ConfigManager::get_autostart(Err("locked".to_string())));
}

#[test]
fn configuration_writes() {
    let w = ConfigManager::set_language("en-US");
    assert_eq!(w.key, "language");
    assert_eq!(w.value, "en-US");
    let w = ConfigManager::set_autostart(true);
    assert_eq!(w.key, "auto_start");
    assert_eq!(w.value, "true");
    let w = ConfigManager::set_autostart(false);
    assert_eq!(w.key, "auto_start");
    assert_eq!(w.value, "false");
}

#[test]
fn environment() {
    assert_eq!(EnvConfig::get_or_default(Some("x".to_string()), "d"), "x");
    assert_eq!(EnvConfig::get_or_default(None, "d"), "d");
    assert!(EnvConfig::is_debug(Some("debug".to_string())));
    assert!(!EnvConfig::is_debug(Some("info".to_string())));
    assert!(!EnvConfig::is_debug(Some("DEBUG".to_string())));
    assert!(!EnvConfig::is_debug(None));
    assert!(EnvConfig::is_release(false));
    assert!(!EnvConfig::is_release(true));
}

// ------------------------------------------------------------------- errors

#[test]
fn application_error_messages() {
    assert_eq!(AppError::Database("d".to_string()).message(), "数据库错误: d");
    assert_eq!(AppError::Serialization("d".to_string()).message(), "序列化错误: d");
    assert_eq!(AppError::CommandExecution("d".to_string()).message(), "命令执行错误: d");
    assert_eq!(AppError::Config("d".to_string()).message(), "配置错误: d");
    assert_eq!(AppError::System("d".to_string()).message(), "系统错误: d");
    assert_eq!(AppError::Unknown("d".to_string()).message(), "未知错误: d");

    let io = std::io::Error::new(std::io::ErrorKind::Other, "pipe broke");
    let text = format!("IO错误: {}", io);
    assert_eq!(AppError::from(io).message(), text);
    assert_eq!(text, "IO错误: pipe broke");

    let sql = rusqlite::Error::InvalidQuery;
    let text = format!("SQLite错误: {}", sql);
    let e = AppError::from(sql);
    assert!(matches!(e, AppError::Sqlite(_)));
    assert_eq!(e.message(), text);
    assert!(text.len() > "SQLite错误: ".len());
}

#[test]
fn application_error_conversions() {
    assert!(matches!(AppError::from("m"), AppError::Unknown(m) if m == "m"));
    assert!(matches!(AppError::from("m".to_string()), AppError::Unknown(m) if m == "m"));
    let io = std::io::Error::new(std::io::ErrorKind::NotFound, "gone");
    assert!(matches!(AppError::from(io), AppError::Io(_)));
    let json = serde_json::from_str::<Vec<i32>>("[1,").unwrap_err();
    let text = json.to_string();
    match AppError::from(json) {
        AppError::Serialization(m) => {
            assert_eq!(m, text);
            assert!(!m.is_empty());
        }
        other => panic!("unexpected: {:?}", other),
    }
}

// ----------------------------------------------------------------- database

fn no_update() -> UpdateCommandInput {
    UpdateCommandInput {
        name: None,
        command: None,
        sudo: None,
        working_directory: None,
        url: None,
        notification_when_finished: None,
    }
}

#[test]
fn update_statement_names_the_given_columns() {
    assert_eq!(update_statement(&no_update()), None);
    assert!(update_columns(&no_update()).is_empty());

    let mut input = no_update();
    input.name = Some("新名称".to_string());
    assert_eq!(
        update_statement(&input).as_deref(),
        Some("UPDATE commands SET name = ?, updated_at = CURRENT_TIMESTAMP WHERE id = ?")
    );
    assert_eq!(update_columns(&input), vec![UpdateColumn::Name]);

    let mut input = no_update();
    input.sudo = Some(false);
    input.url = Some(String::new());
    assert_eq!(
        update_statement(&input).as_deref(),
        Some("UPDATE commands SET sudo = ?, url = ?, updated_at = CURRENT_TIMESTAMP WHERE id = ?")
    );
    assert_eq!(update_columns(&input), vec![UpdateColumn::Sudo, UpdateColumn::Url]);

    let input = UpdateCommandInput {
        name: Some("n".to_string()),
        command: Some("c".to_string()),
        sudo: Some(true),
        working_directory: Some("w".to_string()),
        url: Some("u".to_string()),
        notification_when_finished: Some(true),
    };
    assert_eq!(
        update_statement(&input).as_deref(),
        Some(
            "UPDATE commands SET name = ?, command = ?, sudo = ?, working_directory = ?, url = ?, \
             notification_when_finished = ?, updated_at = CURRENT_TIMESTAMP WHERE id = ?"
        )
    );
    assert_eq!(
        update_columns(&input),
        vec![
            UpdateColumn::Name,
            UpdateColumn::Command,
            UpdateColumn::Sudo,
            UpdateColumn::WorkingDirectory,
            UpdateColumn::Url,
            UpdateColumn::NotificationWhenFinished,
        ]
    );
    assert_eq!(UpdateColumn::WorkingDirectory.as_str(), "working_directory");
}

fn stored(id: i64, name: &str, command: &str) -> Command {
    Command {
        id,
        name: name.to_string(),
        command: command.to_string(),
        sudo: id % 2 == 0,
        working_directory: Some(format!("/srv/{}", id)),
        url: None,
        notification_when_finished: true,
        sort_order: id - 1,
        created_at: "2024-01-01 00:00:00".to_string(),
        updated_at: "2024-01-02 00:00:00".to_string(),
    }
}

// ------------------------------------------------------- export and import

#[test]
fn export_keeps_order_and_drops_bookkeeping() {
    let commands = vec![stored(1, "one", "echo 1"), stored(2, "two", "echo 2")];
    let exported = export_all(&commands);
    assert_eq!(exported.len(), 2);
    assert_eq!(exported[0].name, "one");
    assert_eq!(exported[0].command, "echo 1");
    assert!(!exported[0].sudo);
    assert_eq!(exported[0].working_directory.as_deref(), Some("/srv/1"));
    assert_eq!(exported[0].url, None);
    assert!(exported[0].notification_when_finished);
    assert_eq!(exported[1].name, "two");
    assert!(exported[1].sudo);
    assert!(export_all(&Vec::new()).is_empty());
}

#[test]
fn stored_definition_becomes_a_request() {
    let p = execution_params(stored(4, "four", "echo 4"));
    assert_eq!(p.command_id, 4);
    assert_eq!(p.command_name, "four");
    assert_eq!(p.command, "echo 4");
    assert!(p.sudo);
    assert_eq!(p.working_directory.as_deref(), Some("/srv/4"));
    assert!(p.notification_when_finished);
}

fn exported(name: &str, command: &str) -> ExportCommand {
    ExportCommand {
        name: name.to_string(),
        command: command.to_string(),
        sudo: true,
        working_directory: None,
        url: Some("https://example.org".to_string()),
        notification_when_finished: false,
    }
}

#[test]
fn imported_definition_becomes_an_input() {
    let input = create_input(exported("n", "c"));
    assert_eq!(input.name, "n");
    assert_eq!(input.command, "c");
    assert!(input.sudo);
    assert_eq!(input.working_directory, None);
    assert_eq!(input.url.as_deref(), Some("https://example.org"));
    assert!(!input.notification_when_finished);
}

#[test]
fn import_bookkeeping() {
    let mut result = ImportResult::new();
    assert_eq!(result.success_count, 0);
    assert_eq!(result.skip_count, 0);
    assert!(result.failed_items.is_empty());

    // 0: stored
    assert!(result.validate(0, &exported("a", "echo a")));
    assert!(result.duplicate_checked(0, &Ok(false)));
    result.created(0, &Ok(()));
    // 1: blank name
    assert!(!result.validate(1, &exported("  ", "echo b")));
    // 2: blank command
    assert!(!result.validate(2, &exported("c", "\t\n")));
    // 3: both blank: the name is named
    assert!(!result.validate(3, &exported("", "")));
    // 4: duplicate
    assert!(result.validate(4, &exported("a", "echo a")));
    assert!(!result.duplicate_checked(4, &Ok(true)));
    // 5: the store fails on the look-up
    assert!(result.validate(5, &exported("e", "echo e")));
    assert!(!result.duplicate_checked(5, &Err("locked".to_string())));
    // 6: the store fails on the insert
    assert!(result.validate(6, &exported("f", "echo f")));
    assert!(result.duplicate_checked(6, &Ok(false)));
    result.created(6, &Err("full".to_string()));
    // 7: stored
    assert!(result.validate(7, &exported("g", "echo g")));
    assert!(result.duplicate_checked(7, &Ok(false)));
    result.created(7, &Ok(()));

    assert_eq!(result.success_count, 2);
    assert_eq!(result.skip_count, 6);
    let failed: Vec<(usize, &str)> =
        result.failed_items.iter().map(|f| (f.index, f.reason.as_str())).collect();
    assert_eq!(
        failed,
        vec![
            (1, "命令名称不能为空"),
            (2, "命令内容不能为空"),
            (3, "命令名称不能为空"),
            (4, "命令已存在（名称和内容重复）"),
            (5, "检查重复失败: locked"),
            (6, "创建命令失败: full"),
        ]
    );
}

// ---------------------------------------------------------------------- log

#[test]
fn log_records() {
    assert_eq!(
        format_record("2024-05-06 07:08:09.123", "INFO", "sigil::db", "ready"),
        "[2024-05-06 07:08:09.123] INFO [sigil::db] ready"
    );
    assert_eq!(
        format_init_error("2024-05-06 07:08:09.123", "no disk"),
        "[2024-05-06 07:08:09.123] ERROR [init] no disk"
    );
    assert_eq!(log_level(true, Some("warn".to_string())), "debug");
    assert_eq!(log_level(true, None), "debug");
    assert_eq!(log_level(false, Some("warn".to_string())), "warn");
    assert_eq!(log_level(false, None), "info");
}

#[test]
fn event_topics_and_replies() {
    assert_eq!(sigil::command_runner::STATUS_CHANGED_EVENT, "command-status-changed");
    assert_eq!(sigil::command_runner::LOG_UPDATE_EVENT, "command-log-update");
    assert_eq!(&sigil::single_instance::activation_reply(), b"ok");
    assert_eq!(sigil::single_instance::MUTEX_NAME, "Global\\SigilSingleInstanceMutex");
    assert_eq!(sigil::single_instance::IPC_ADDRESS, "127.0.0.1:14201");
}

// ------------------------------------------------------------------ monitor

#[test]
fn disks_are_added_up() {
    assert_eq!(disk_usage(&Vec::new()), Some(DiskUsage { used: 0, total: 0 }));
    let disks = vec![
        DiskSpace { total: 1000, available: 400 },
        DiskSpace { total: 500, available: 500 },
        DiskSpace { total: 250, available: 0 },
    ];
    assert_eq!(disk_usage(&disks), Some(DiskUsage { used: 850, total: 1750 }));
    // a disk that reports more free space than it is large
    let odd = vec![DiskSpace { total: 10, available: 11 }];
    assert_eq!(disk_usage(&odd), None);
    // sizes beyond the range of the counters
    let huge = vec![
        DiskSpace { total: u64::MAX, available: u64::MAX },
        DiskSpace { total: 1, available: 1 },
    ];
    assert_eq!(disk_usage(&huge), None);
    let edge = vec![
        DiskSpace { total: u64::MAX - 1, available: 0 },
        DiskSpace { total: 1, available: 0 },
    ];
    assert_eq!(disk_usage(&edge), Some(DiskUsage { used: u64::MAX, total: u64::MAX }));
}

fn percent_encoded(text: &str) -> String {
    let mut out = String::new();
    for b in text.bytes() {
        let keep = b.is_ascii_alphanumeric() || b == b'-' || b == b'.' || b == b'_' || b == b'~';
        if keep {
            out.push(b as char);
        } else {
            out.push_str(&format!("%{:02X}", b));
        }
    }
    out
}

#[test]
fn log_window_address_encodes_every_reserved_byte() {
    for code in 0u32..0x3000 {
        if let Some(c) = char::from_u32(code) {
            let name = format!("a{}z", c);
            let expected = format!("/#/log/3?name={}", percent_encoded(&name));
            assert_eq!(log_window_url(3, &name), expected, "U+{:04X}", code);
        }
    }
    assert_eq!(log_window_url(3, "\u{1F600}"), "/#/log/3?name=%F0%9F%98%80");
}
