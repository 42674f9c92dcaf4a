//! The data of one run: its status, its runtime state, its log lines and the
//! request that started it, each with its mathematical view.

use vstd::prelude::*;

verus! {

/// Where a command stands in its lifecycle.
///
/// `Idle` is implicit: a command that was never run has no recorded state.
/// `Success`, `Failed` and `Stopped` end a run; only a new run leaves them.
#[derive(Debug, Clone, Copy, PartialEq, Eq, Structural)]
pub enum CommandStatus {
    Idle,
    Running,
    Success,
    Failed,
    Stopped,
}

impl CommandStatus {
    /// A status in which a run has ended.
    pub open spec fn terminal(self) -> bool {
        self == CommandStatus::Success || self == CommandStatus::Failed || self
            == CommandStatus::Stopped
    }

    /// Whether a run has ended in this status.
    pub fn is_terminal(&self) -> (r: bool)
        ensures
            r == self.terminal(),
    {
        match self {
            CommandStatus::Success | CommandStatus::Failed | CommandStatus::Stopped => true,
            _ => false,
        }
    }

    /// The lower-case name under which observers receive the status.
    pub open spec fn name(self) -> Seq<char> {
        match self {
            CommandStatus::Idle => "idle"@,
            CommandStatus::Running => "running"@,
            CommandStatus::Success => "success"@,
            CommandStatus::Failed => "failed"@,
            CommandStatus::Stopped => "stopped"@,
        }
    }

    /// The lower-case name under which observers receive the status.
    pub fn as_str(&self) -> (r: &'static str)
        ensures
            r@ == self.name(),
    {
        match self {
            CommandStatus::Idle => "idle",
            CommandStatus::Running => "running",
            CommandStatus::Success => "success",
            CommandStatus::Failed => "failed",
            CommandStatus::Stopped => "stopped",
        }
    }
}

/// The text of an optional string.
pub open spec fn opt_text(s: Option<String>) -> Option<Seq<char>> {
    match s {
        Some(t) => Some(t@),
        None => None,
    }
}

/// A copy of an optional string.
pub fn clone_opt_string(s: &Option<String>) -> (r: Option<String>)
    ensures
        r == *s,
{
    match s {
        Some(t) => Some(t.clone()),
        None => None,
    }
}

/// The runtime state of one command.
#[derive(Debug)]
pub struct CommandState {
    pub command_id: i64,
    pub status: CommandStatus,
    pub pid: Option<u32>,
    pub start_time: Option<String>,
    pub exit_code: Option<i32>,
}

/// The mathematical content of a [`CommandState`].
pub struct CommandStateView {
    pub command_id: i64,
    pub status: CommandStatus,
    pub pid: Option<u32>,
    pub start_time: Option<Seq<char>>,
    pub exit_code: Option<i32>,
}

impl CommandStateView {
    /// What holds of the state that is recorded for the command `id`: it
    /// names that command; it is not `Idle`; it has a process id exactly
    /// when it is `Running`, and a start time then; it has an exit code
    /// only when it is `Success` or `Failed`.
    pub open spec fn recorded_for(self, id: i64) -> bool {
        &&& self.command_id == id
        &&& self.status != CommandStatus::Idle
        &&& self.status == CommandStatus::Running ==> self.pid is Some && self.start_time is Some
        &&& self.status != CommandStatus::Running ==> self.pid is None
        &&& self.exit_code is Some ==> self.status == CommandStatus::Success || self.status
            == CommandStatus::Failed
    }
}

impl View for CommandState {
    type V = CommandStateView;

    open spec fn view(&self) -> CommandStateView {
        CommandStateView {
            command_id: self.command_id,
            status: self.status,
            pid: self.pid,
            start_time: opt_text(self.start_time),
            exit_code: self.exit_code,
        }
    }
}

impl Clone for CommandState {
    fn clone(&self) -> (r: Self)
        ensures
            r == *self,
    {
        CommandState {
            command_id: self.command_id,
            status: self.status,
            pid: self.pid,
            start_time: clone_opt_string(&self.start_time),
            exit_code: self.exit_code,
        }
    }
}

/// One line of output, as observers receive it.
#[derive(Debug)]
pub struct LogLine {
    pub command_id: i64,
    pub line: String,
    /// `"stdout"` or `"stderr"`.
    pub stream: String,
}

/// The mathematical content of a [`LogLine`].
pub struct LogLineView {
    pub command_id: i64,
    pub line: Seq<char>,
    pub stream: Seq<char>,
}

impl View for LogLine {
    type V = LogLineView;

    open spec fn view(&self) -> LogLineView {
        LogLineView { command_id: self.command_id, line: self.line@, stream: self.stream@ }
    }
}

impl Clone for LogLine {
    fn clone(&self) -> (r: Self)
        ensures
            r == *self,
    {
        LogLine { command_id: self.command_id, line: self.line.clone(), stream: self.stream.clone() }
    }
}

/// A request to run a command.
#[derive(Debug)]
pub struct ExecuteCommandParams {
    pub command_id: i64,
    pub command_name: String,
    pub command: String,
    pub sudo: bool,
    pub working_directory: Option<String>,
    pub notification_when_finished: bool,
}

/// The mathematical content of an [`ExecuteCommandParams`].
pub struct ParamsView {
    pub command_id: i64,
    pub command_name: Seq<char>,
    pub command: Seq<char>,
    pub sudo: bool,
    pub working_directory: Option<Seq<char>>,
    pub notification_when_finished: bool,
}

impl View for ExecuteCommandParams {
    type V = ParamsView;

    open spec fn view(&self) -> ParamsView {
        ParamsView {
            command_id: self.command_id,
            command_name: self.command_name@,
            command: self.command@,
            sudo: self.sudo,
            working_directory: opt_text(self.working_directory),
            notification_when_finished: self.notification_when_finished,
        }
    }
}

impl Clone for ExecuteCommandParams {
    fn clone(&self) -> (r: Self)
        ensures
            r == *self,
    {
        ExecuteCommandParams {
            command_id: self.command_id,
            command_name: self.command_name.clone(),
            command: self.command.clone(),
            sudo: self.sudo,
            working_directory: clone_opt_string(&self.working_directory),
            notification_when_finished: self.notification_when_finished,
        }
    }
}

/// The temporary files through which an elevated run hands back what it
/// wrote and how it ended.
#[derive(Debug)]
pub struct TempFiles {
    /// The wrapper script that the elevation broker runs.
    pub script: String,
    /// Receives the command's standard output.
    pub stdout: String,
    /// Receives the command's standard error.
    pub stderr: String,
    /// Receives the command's exit code.
    pub exit_code: String,
}

/// The mathematical content of a [`TempFiles`].
pub struct TempFilesView {
    pub script: Seq<char>,
    pub stdout: Seq<char>,
    pub stderr: Seq<char>,
    pub exit_code: Seq<char>,
}

impl View for TempFiles {
    type V = TempFilesView;

    open spec fn view(&self) -> TempFilesView {
        TempFilesView {
            script: self.script@,
            stdout: self.stdout@,
            stderr: self.stderr@,
            exit_code: self.exit_code@,
        }
    }
}

impl Clone for TempFiles {
    fn clone(&self) -> (r: Self)
        ensures
            r == *self,
    {
        TempFiles {
            script: self.script.clone(),
            stdout: self.stdout.clone(),
            stderr: self.stderr.clone(),
            exit_code: self.exit_code.clone(),
        }
    }
}

/// The view of optional temporary files.
pub open spec fn opt_files(f: Option<TempFiles>) -> Option<TempFilesView> {
    match f {
        Some(t) => Some(t@),
        None => None,
    }
}

/// A copy of optional temporary files.
pub fn clone_opt_files(f: &Option<TempFiles>) -> (r: Option<TempFiles>)
    ensures
        r == *f,
{
    match f {
        Some(t) => Some(t.clone()),
        None => None,
    }
}

} // verus!
