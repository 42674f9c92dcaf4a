//! How a command is started: directly through the shell, or, where
//! elevated rights are asked for and not held, through the elevation broker
//! with the output relayed over temporary files.

use vstd::prelude::*;
use vstd::string::*;
use crate::state::{ExecuteCommandParams, ParamsView, TempFiles, TempFilesView};
use crate::text::{chars_of, decimal, is_blank, push_char, push_decimal, str_is_blank, texts};

verus! {

/// The kind of system the host runs on.
#[derive(Debug, Clone, Copy, PartialEq, Eq, Structural)]
pub enum Platform {
    /// Commands run under `cmd`; elevation goes through a broker that hands
    /// back neither output nor exit code; processes can be grouped.
    Windows,
    /// Commands run under `sh`; elevation goes through `sudo`.
    Unix,
}

impl Platform {
    /// Whether elevation goes through a broker that pipes nothing back.
    pub open spec fn has_broker(self) -> bool {
        self == Platform::Windows
    }

    /// Whether elevation goes through a broker that pipes nothing back.
    pub fn has_elevation_broker(&self) -> (r: bool)
        ensures
            r == self.has_broker(),
    {
        match self {
            Platform::Windows => true,
            Platform::Unix => false,
        }
    }

    /// Whether processes can be bound in a group whose destruction ends
    /// every member.
    pub open spec fn has_groups(self) -> bool {
        self == Platform::Windows
    }

    /// Whether processes can be bound in a group whose destruction ends
    /// every member. Where they cannot, a stop reaches the started process
    /// alone, and its descendants may survive.
    pub fn has_process_groups(&self) -> (r: bool)
        ensures
            r == self.has_groups(),
    {
        match self {
            Platform::Windows => true,
            Platform::Unix => false,
        }
    }
}

/// Whether the host holds elevated rights, by what came of the probe: a
/// command that only an elevated caller may run. `Some(true)` says that the
/// probe ran and succeeded, `Some(false)` that it ran and failed, `None`
/// that it could not be run. Only a probe that succeeded shows elevated
/// rights.
pub fn is_elevated(probe: Option<bool>) -> (r: bool)
    ensures
        r == (probe == Some(true)),
{
    match probe {
        Some(succeeded) => succeeded,
        None => false,
    }
}

/// A run is relayed over temporary files when elevation is asked for, the
/// host does not hold elevated rights yet, and elevation goes through the
/// broker.
pub open spec fn relayed(params: ParamsView, platform: Platform, elevated: bool) -> bool {
    platform.has_broker() && params.sudo && !elevated
}

/// Whether the run of `params` is relayed over temporary files.
pub fn uses_relay(params: &ExecuteCommandParams, platform: Platform, elevated: bool) -> (r: bool)
    ensures
        r == relayed(params@, platform, elevated),
{
    platform.has_elevation_broker() && params.sudo && !elevated
}

// ---------------------------------------------------------------------------
// The relay files and the wrapper script
// ---------------------------------------------------------------------------

/// The name that the relay files of `id` begin with.
pub open spec fn relay_prefix(id: i64) -> Seq<char> {
    "sigil_cmd_"@ + decimal(id as int)
}

/// The names of the relay files of `id`, without a directory.
pub open spec fn relay_names(id: i64) -> TempFilesView {
    TempFilesView {
        script: relay_prefix(id) + ".bat"@,
        stdout: relay_prefix(id) + "_stdout.txt"@,
        stderr: relay_prefix(id) + "_stderr.txt"@,
        exit_code: relay_prefix(id) + "_exit.txt"@,
    }
}

fn relay_name(id: i64, suffix: &str) -> (r: String)
    ensures
        r@ == relay_prefix(id) + suffix@,
{
    let mut s = String::from_str("sigil_cmd_");
    push_decimal(&mut s, id);
    s.append(suffix);
    s
}

/// The names of the relay files of `command_id`, without a directory: the
/// host puts them in its directory for temporary files.
pub fn relay_file_names(command_id: i64) -> (r: TempFiles)
    ensures
        r@ == relay_names(command_id),
{
    TempFiles {
        script: relay_name(command_id, ".bat"),
        stdout: relay_name(command_id, "_stdout.txt"),
        stderr: relay_name(command_id, "_stderr.txt"),
        exit_code: relay_name(command_id, "_exit.txt"),
    }
}

/// The time, in milliseconds, that the relay files are given to settle
/// after the broker has ended and before they are read. The delay is a rule
/// of thumb: a process that flushes slowly may still be writing.
pub const RELAY_SETTLE_MS: u64 = 100;

/// The directory that the wrapper script changes to: the requested one, or
/// the one it is started in.
pub open spec fn script_directory(params: ParamsView) -> Seq<char> {
    match params.working_directory {
        Some(d) => d,
        None => "%CD%"@,
    }
}

/// The wrapper script of a relayed run. It changes to the working
/// directory, runs the command with its standard output and standard error
/// sent to two files, and writes the command's exit code to a third.
pub open spec fn script_text(params: ParamsView, files: TempFilesView) -> Seq<char> {
    "@echo off\ncd /d \""@ + script_directory(params) + "\"\n("@ + params.command + ") > \""@
        + files.stdout + "\" 2> \""@ + files.stderr + "\"\necho %ERRORLEVEL% > \""@
        + files.exit_code + "\""@
}

/// Writes the wrapper script of a relayed run.
pub fn wrapper_script(params: &ExecuteCommandParams, files: &TempFiles) -> (r: String)
    ensures
        r@ == script_text(params@, files@),
{
    let mut s = String::from_str("@echo off\ncd /d \"");
    match &params.working_directory {
        Some(d) => {
            s.append(d.as_str());
        },
        None => {
            s.append("%CD%");
        },
    }
    s.append("\"\n(");
    s.append(params.command.as_str());
    s.append(") > \"");
    s.append(files.stdout.as_str());
    s.append("\" 2> \"");
    s.append(files.stderr.as_str());
    s.append("\"\necho %ERRORLEVEL% > \"");
    s.append(files.exit_code.as_str());
    s.append("\"");
    s
}

// ---------------------------------------------------------------------------
// The command line
// ---------------------------------------------------------------------------

/// What the host does with the lines of a pipe.
#[derive(Debug, Clone, Copy, PartialEq, Eq, Structural)]
pub enum StreamUse {
    /// The lines are the command's output: each is logged under the
    /// stream's name.
    Output,
    /// The lines are the broker's own diagnostics: each that is not blank
    /// is logged as standard error behind the broker's tag.
    BrokerDiagnostics,
    /// The pipe is not read.
    Unread,
}

/// The flags with which a process is created on Windows: in a process group
/// of its own (`0x0000_0200`) and without a console window
/// (`0x0800_0000`).
pub const DETACHED_FLAGS: u32 = 0x0800_0200;

/// A process to create.
#[derive(Debug)]
pub struct LaunchCommand {
    /// The program to run.
    pub program: String,
    /// Its arguments.
    pub args: Vec<String>,
    /// The directory to start it in, where one is to be set.
    pub working_directory: Option<String>,
    /// The creation flags; `0` where the platform has none.
    pub creation_flags: u32,
    /// What to do with the lines of standard output.
    pub stdout: StreamUse,
    /// What to do with the lines of standard error.
    pub stderr: StreamUse,
}

/// The mathematical content of a [`LaunchCommand`].
pub struct LaunchCommandView {
    pub program: Seq<char>,
    pub args: Seq<Seq<char>>,
    pub working_directory: Option<Seq<char>>,
    pub creation_flags: u32,
    pub stdout: StreamUse,
    pub stderr: StreamUse,
}

impl View for LaunchCommand {
    type V = LaunchCommandView;

    open spec fn view(&self) -> LaunchCommandView {
        LaunchCommandView {
            program: self.program@,
            args: texts(self.args@),
            working_directory: crate::state::opt_text(self.working_directory),
            creation_flags: self.creation_flags,
            stdout: self.stdout,
            stderr: self.stderr,
        }
    }
}

/// The command line of a run that is not relayed: the shell with the
/// command text, started in the working directory, both pipes read as
/// output. On Unix an elevated run goes through `sudo -S`.
pub open spec fn direct_launch(params: ParamsView, platform: Platform) -> LaunchCommandView {
    match platform {
        Platform::Windows => LaunchCommandView {
            program: "cmd"@,
            args: seq!["/C"@, params.command],
            working_directory: params.working_directory,
            creation_flags: DETACHED_FLAGS,
            stdout: StreamUse::Output,
            stderr: StreamUse::Output,
        },
        Platform::Unix => LaunchCommandView {
            program: if params.sudo {
                "sudo"@
            } else {
                "sh"@
            },
            args: if params.sudo {
                seq!["-S"@, "sh"@, "-c"@, params.command]
            } else {
                seq!["-c"@, params.command]
            },
            working_directory: params.working_directory,
            creation_flags: 0,
            stdout: StreamUse::Output,
            stderr: StreamUse::Output,
        },
    }
}

/// Puts a copy of `s` at the end of `args`.
fn push_arg(args: &mut Vec<String>, s: &str)
    ensures
        texts(final(args)@) == texts(old(args)@).push(s@),
{
    let text = String::from_str(s);
    args.push(text);
    assert(texts(args@) =~= texts(old(args)@).push(s@));
}

/// The command line of a run that is not relayed.
pub fn direct_command(params: &ExecuteCommandParams, platform: Platform) -> (r: LaunchCommand)
    ensures
        r@ == direct_launch(params@, platform),
{
    let mut args: Vec<String> = Vec::new();
    assert(texts(args@) =~= Seq::<Seq<char>>::empty());
    let working_directory = crate::state::clone_opt_string(&params.working_directory);
    match platform {
        Platform::Windows => {
            push_arg(&mut args, "/C");
            push_arg(&mut args, params.command.as_str());
            assert(texts(args@) =~= seq!["/C"@, params.command@]);
            LaunchCommand {
                program: String::from_str("cmd"),
                args,
                working_directory,
                creation_flags: DETACHED_FLAGS,
                stdout: StreamUse::Output,
                stderr: StreamUse::Output,
            }
        },
        Platform::Unix => {
            if params.sudo {
                push_arg(&mut args, "-S");
                push_arg(&mut args, "sh");
                push_arg(&mut args, "-c");
                push_arg(&mut args, params.command.as_str());
                assert(texts(args@) =~= seq!["-S"@, "sh"@, "-c"@, params.command@]);
                LaunchCommand {
                    program: String::from_str("sudo"),
                    args,
                    working_directory,
                    creation_flags: 0,
                    stdout: StreamUse::Output,
                    stderr: StreamUse::Output,
                }
            } else {
                push_arg(&mut args, "-c");
                push_arg(&mut args, params.command.as_str());
                assert(texts(args@) =~= seq!["-c"@, params.command@]);
                LaunchCommand {
                    program: String::from_str("sh"),
                    args,
                    working_directory,
                    creation_flags: 0,
                    stdout: StreamUse::Output,
                    stderr: StreamUse::Output,
                }
            }
        },
    }
}

/// `s` with every double quote written twice.
pub open spec fn double_quotes(s: Seq<char>) -> Seq<char>
    decreases s.len(),
{
    if s.len() == 0 {
        Seq::empty()
    } else if s.last() == '"' {
        double_quotes(s.drop_last()).push('"').push('"')
    } else {
        double_quotes(s.drop_last()).push(s.last())
    }
}

/// Appends `s` to `out` with every double quote written twice.
fn push_doubling_quotes(out: &mut String, s: &str)
    ensures
        final(out)@ == old(out)@ + double_quotes(s@),
{
    let chars = chars_of(s);
    let mut i: usize = 0;
    assert(chars@.take(0) =~= Seq::<char>::empty());
    assert(out@ + Seq::<char>::empty() =~= out@);
    while i < chars.len()
        invariant
            i <= chars.len(),
            chars@ == s@,
            out@ == old(out)@ + double_quotes(chars@.take(i as int)),
        decreases chars.len() - i,
    {
        let c = chars[i];
        let ghost prefix = chars@.take(i + 1);
        proof {
            assert(prefix.drop_last() =~= chars@.take(i as int));
            assert(prefix.last() == c);
        }
        let ghost before = out@;
        if c == '"' {
            push_char(out, '"');
            push_char(out, '"');
            assert(out@ =~= old(out)@ + double_quotes(prefix));
        } else {
            push_char(out, c);
            assert(out@ =~= old(out)@ + double_quotes(prefix));
        }
        i += 1;
    }
    assert(chars@.take(chars.len() as int) =~= chars@);
}

/// What the elevation broker is told: to start the script elevated and
/// hidden, and to wait for it.
pub open spec fn broker_request(script_path: Seq<char>) -> Seq<char> {
    "Start-Process -FilePath \""@ + double_quotes(script_path)
        + "\" -Verb RunAs -Wait -WindowStyle Hidden"@
}

/// The command line of a relayed run: the broker, called without profile
/// and without prompt, with the request to run the wrapper script. No
/// working directory is set (the script changes to it); standard output is
/// not read, standard error carries the broker's diagnostics.
pub open spec fn broker_launch(script_path: Seq<char>) -> LaunchCommandView {
    LaunchCommandView {
        program: "powershell"@,
        args: seq![
            "-NoProfile"@,
            "-NonInteractive"@,
            "-ExecutionPolicy"@,
            "Bypass"@,
            "-Command"@,
            broker_request(script_path),
        ],
        working_directory: None,
        creation_flags: DETACHED_FLAGS,
        stdout: StreamUse::Unread,
        stderr: StreamUse::BrokerDiagnostics,
    }
}

/// The command line of a relayed run, for the wrapper script at
/// `script_path`.
pub fn broker_command(script_path: &str) -> (r: LaunchCommand)
    ensures
        r@ == broker_launch(script_path@),
{
    let mut request = String::from_str("Start-Process -FilePath \"");
    push_doubling_quotes(&mut request, script_path);
    request.append("\" -Verb RunAs -Wait -WindowStyle Hidden");
    let mut args: Vec<String> = Vec::new();
    assert(texts(args@) =~= Seq::<Seq<char>>::empty());
    push_arg(&mut args, "-NoProfile");
    push_arg(&mut args, "-NonInteractive");
    push_arg(&mut args, "-ExecutionPolicy");
    push_arg(&mut args, "Bypass");
    push_arg(&mut args, "-Command");
    push_arg(&mut args, request.as_str());
    assert(texts(args@) =~= broker_launch(script_path@).args);
    LaunchCommand {
        program: String::from_str("powershell"),
        args,
        working_directory: None,
        creation_flags: DETACHED_FLAGS,
        stdout: StreamUse::Unread,
        stderr: StreamUse::BrokerDiagnostics,
    }
}

/// The line under which a diagnostic of the broker is logged: the line
/// behind the broker's tag; nothing for a blank line.
pub open spec fn diagnostic_text(line: Seq<char>) -> Option<Seq<char>> {
    if is_blank(line) {
        None
    } else {
        Some("[PowerShell] "@ + line)
    }
}

/// The line under which a diagnostic of the broker is logged, as standard
/// error; `None` for a blank line, which is not logged.
pub fn broker_diagnostic(line: &str) -> (r: Option<String>)
    ensures
        crate::state::opt_text(r) == diagnostic_text(line@),
{
    if str_is_blank(line) {
        None
    } else {
        let mut s = String::from_str("[PowerShell] ");
        s.append(line);
        Some(s)
    }
}

} // verus!
