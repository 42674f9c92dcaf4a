use sigil::elevation::{
    broker_command, broker_diagnostic, direct_command, relay_file_names, uses_relay,
    wrapper_script, Platform, StreamUse, DETACHED_FLAGS,
};
use sigil::state::{ExecuteCommandParams, TempFiles};

fn request(sudo: bool, directory: Option<&str>) -> ExecuteCommandParams {
    ExecuteCommandParams {
        command_id: 12,
        command_name: "build".to_string(),
        command: "echo \"hi\" && dir".to_string(),
        sudo,
        working_directory: directory.map(|d| d.to_string()),
        notification_when_finished: false,
    }
}

#[test]
fn relay_only_for_elevation_through_the_broker() {
    assert!(uses_relay(&request(true, None), Platform::Windows, false));
    assert!(!uses_relay(&request(true, None), Platform::Windows, true));
    assert!(!uses_relay(&request(false, None), Platform::Windows, false));
    assert!(!uses_relay(&request(false, None), Platform::Windows, true));
    assert!(!uses_relay(&request(true, None), Platform::Unix, false));
    assert!(!uses_relay(&request(true, None), Platform::Unix, true));
    assert!(!uses_relay(&request(false, None), Platform::Unix, false));
}

#[test]
fn platform_capabilities() {
    assert!(Platform::Windows.has_elevation_broker());
    assert!(Platform::Windows.has_process_groups());
    assert!(!Platform::Unix.has_elevation_broker());
    assert!(!Platform::Unix.has_process_groups());
}

#[test]
fn relay_files_are_named_after_the_command() {
    let names = relay_file_names(12);
    assert_eq!(names.script, "sigil_cmd_12.bat");
    assert_eq!(names.stdout, "sigil_cmd_12_stdout.txt");
    assert_eq!(names.stderr, "sigil_cmd_12_stderr.txt");
    assert_eq!(names.exit_code, "sigil_cmd_12_exit.txt");
    assert_eq!(relay_file_names(-3).script, "sigil_cmd_-3.bat");
}

#[test]
fn wrapper_script_redirects_to_the_three_files() {
    let files = TempFiles {
        script: "C:\\T\\sigil_cmd_12.bat".to_string(),
        stdout: "C:\\T\\sigil_cmd_12_stdout.txt".to_string(),
        stderr: "C:\\T\\sigil_cmd_12_stderr.txt".to_string(),
        exit_code: "C:\\T\\sigil_cmd_12_exit.txt".to_string(),
    };
    let script = wrapper_script(&request(true, Some("D:\\work dir")), &files);
    assert_eq!(
        script,
        "@echo off\n\
         cd /d \"D:\\work dir\"\n\
         (echo \"hi\" && dir) > \"C:\\T\\sigil_cmd_12_stdout.txt\" 2> \"C:\\T\\sigil_cmd_12_stderr.txt\"\n\
         echo %ERRORLEVEL% > \"C:\\T\\sigil_cmd_12_exit.txt\""
    );
    let script = wrapper_script(&request(true, None), &files);
    assert!(script.starts_with("@echo off\ncd /d \"%CD%\"\n(echo \"hi\" && dir) > "));
}

#[test]
fn direct_command_lines() {
    let c = direct_command(&request(false, Some("/srv")), Platform::Unix);
    assert_eq!(c.program, "sh");
    assert_eq!(c.args, vec!["-c", "echo \"hi\" && dir"]);
    assert_eq!(c.working_directory.as_deref(), Some("/srv"));
    assert_eq!(c.creation_flags, 0);
    assert_eq!(c.stdout, StreamUse::Output);
    assert_eq!(c.stderr, StreamUse::Output);

    let c = direct_command(&request(true, None), Platform::Unix);
    assert_eq!(c.program, "sudo");
    assert_eq!(c.args, vec!["-S", "sh", "-c", "echo \"hi\" && dir"]);
    assert_eq!(c.working_directory, None);
    assert_eq!(c.creation_flags, 0);

    for sudo in [false, true] {
        let c = direct_command(&request(sudo, Some("C:\\x")), Platform::Windows);
        assert_eq!(c.program, "cmd");
        assert_eq!(c.args, vec!["/C", "echo \"hi\" && dir"]);
        assert_eq!(c.working_directory.as_deref(), Some("C:\\x"));
        assert_eq!(c.creation_flags, 0x0000_0200 | 0x0800_0000);
        assert_eq!(c.creation_flags, DETACHED_FLAGS);
        assert_eq!(c.stdout, StreamUse::Output);
        assert_eq!(c.stderr, StreamUse::Output);
    }
}

#[test]
fn broker_command_line() {
    let c = broker_command("C:\\Temp\\sigil_cmd_12.bat");
    assert_eq!(c.program, "powershell");
    assert_eq!(
        c.args,
        vec![
            "-NoProfile",
            "-NonInteractive",
            "-ExecutionPolicy",
            "Bypass",
            "-Command",
            "Start-Process -FilePath \"C:\\Temp\\sigil_cmd_12.bat\" -Verb RunAs -Wait -WindowStyle Hidden",
        ]
    );
    assert_eq!(c.working_directory, None);
    assert_eq!(c.creation_flags, DETACHED_FLAGS);
    assert_eq!(c.stdout, StreamUse::Unread);
    assert_eq!(c.stderr, StreamUse::BrokerDiagnostics);
}

#[test]
fn broker_command_doubles_quotes() {
    let c = broker_command("C:\\a \"b\"\\s.bat");
    assert_eq!(
        c.args[5],
        "Start-Process -FilePath \"C:\\a \"\"b\"\"\\s.bat\" -Verb RunAs -Wait -WindowStyle Hidden"
    );
    let c = broker_command("\"");
    assert_eq!(c.args[5], "Start-Process -FilePath \"\"\"\" -Verb RunAs -Wait -WindowStyle Hidden");
    let c = broker_command("");
    assert_eq!(c.args[5], "Start-Process -FilePath \"\" -Verb RunAs -Wait -WindowStyle Hidden");
}

#[test]
fn broker_diagnostics_are_tagged() {
    assert_eq!(broker_diagnostic("Access denied").as_deref(), Some("[PowerShell] Access denied"));
    assert_eq!(broker_diagnostic("  indented").as_deref(), Some("[PowerShell]   indented"));
    assert_eq!(broker_diagnostic(""), None);
    assert_eq!(broker_diagnostic("   \t"), None);
}

#[test]
fn elevation_probe() {
    assert!(sigil::elevation::is_elevated(Some(true)));
    assert!(!sigil::elevation::is_elevated(Some(false)));
    assert!(!sigil::elevation::is_elevated(None));
}

#[test]
fn relay_settle_time() {
    assert_eq!(sigil::elevation::RELAY_SETTLE_MS, 100);
}
