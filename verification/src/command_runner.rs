//! The execution registry: the one owner of every command's runtime state,
//! resources and log.
//!
//! The registry decides; its host acts. The host spawns and kills processes,
//! reads pipes and files, and tells the registry what happened; every method
//! here is one atomic step of the state machine in [`crate::model`], and
//! hands back what the host has to broadcast or clean up.

use std::collections::HashMap;
use vstd::prelude::*;
use vstd::string::*;
use crate::model::{
    final_status, format_log, relay_lines, tagged, RelayView, RunView, RunnerView,
};
use crate::notification::{build_notification, notification_of, opt_notification, Notification,
    NotificationView};
pub use crate::model::ProcessExit;
pub use crate::state::{CommandState, CommandStatus, ExecuteCommandParams, LogLine};
use crate::state::{
    clone_opt_files, clone_opt_string, opt_files, opt_text, CommandStateView, LogLineView,
    ParamsView, TempFiles, TempFilesView,
};
use crate::text::{decimal, parse_trimmed_i32, push_decimal, split_lines, texts};

verus! {

broadcast use vstd::std_specs::hash::group_hash_axioms;

/// The topic under which a recorded state is broadcast to every observer.
pub const STATUS_CHANGED_EVENT: &'static str = "command-status-changed";

/// The topic under which a log line is broadcast to every observer.
pub const LOG_UPDATE_EVENT: &'static str = "command-log-update";

// ---------------------------------------------------------------------------
// Errors
// ---------------------------------------------------------------------------

/// Why `execute` or `stop` refused.
#[derive(Debug)]
pub enum RunnerError {
    /// The working directory is missing or is no directory.
    Validation(String),
    /// The process could not be created.
    Spawn(String),
    /// The elevation broker or the process group could not be set up.
    Elevation(String),
    /// The command is running already.
    AlreadyRunning,
    /// The command is not running.
    NotRunning,
}

/// The mathematical content of a [`RunnerError`].
pub enum RunnerErrorView {
    Validation(Seq<char>),
    Spawn(Seq<char>),
    Elevation(Seq<char>),
    AlreadyRunning,
    NotRunning,
}

impl View for RunnerError {
    type V = RunnerErrorView;

    open spec fn view(&self) -> RunnerErrorView {
        match *self {
            RunnerError::Validation(m) => RunnerErrorView::Validation(m@),
            RunnerError::Spawn(m) => RunnerErrorView::Spawn(m@),
            RunnerError::Elevation(m) => RunnerErrorView::Elevation(m@),
            RunnerError::AlreadyRunning => RunnerErrorView::AlreadyRunning,
            RunnerError::NotRunning => RunnerErrorView::NotRunning,
        }
    }
}

impl RunnerErrorView {
    /// The text shown for the error.
    pub open spec fn message(self) -> Seq<char> {
        match self {
            RunnerErrorView::Validation(m) => m,
            RunnerErrorView::Spawn(m) => m,
            RunnerErrorView::Elevation(m) => m,
            RunnerErrorView::AlreadyRunning => "命令正在运行中"@,
            RunnerErrorView::NotRunning => "命令未在运行"@,
        }
    }
}

impl RunnerError {
    /// The text shown for the error.
    pub fn message(&self) -> (r: String)
        ensures
            r@ == self@.message(),
    {
        match self {
            RunnerError::Validation(m) => m.clone(),
            RunnerError::Spawn(m) => m.clone(),
            RunnerError::Elevation(m) => m.clone(),
            RunnerError::AlreadyRunning => String::from_str("命令正在运行中"),
            RunnerError::NotRunning => String::from_str("命令未在运行"),
        }
    }
}

// ---------------------------------------------------------------------------
// What the host reports of a launch
// ---------------------------------------------------------------------------

/// The step of setting up a process group that failed.
#[derive(Debug, Clone, Copy, PartialEq, Eq, Structural)]
pub enum GroupStage {
    /// The group could not be created.
    Create,
    /// The group could not be told to end its members when it is destroyed.
    Configure,
    /// The new process could not be opened.
    OpenProcess,
    /// The new process could not be put in the group.
    Assign,
}

/// What came of the host's attempt to start a command. The host reports the
/// first step that failed, or the process that it started.
#[derive(Debug)]
pub enum LaunchReport {
    /// The working directory does not exist.
    DirectoryMissing,
    /// The working directory exists and is no directory.
    NotADirectory,
    /// The wrapper script for the elevation broker could not be written.
    ScriptNotWritten(String),
    /// The process could not be created.
    SpawnFailed(String),
    /// The process was created, its group could not be set up, and the
    /// process was killed again.
    GroupFailed(GroupStage, String),
    /// The process runs under `pid`; `grouped` says whether it sits in a
    /// process group.
    Started { pid: u32, grouped: bool },
}

/// The mathematical content of a [`LaunchReport`].
pub enum LaunchReportView {
    DirectoryMissing,
    NotADirectory,
    ScriptNotWritten(Seq<char>),
    SpawnFailed(Seq<char>),
    GroupFailed(GroupStage, Seq<char>),
    Started { pid: u32, grouped: bool },
}

impl View for LaunchReport {
    type V = LaunchReportView;

    open spec fn view(&self) -> LaunchReportView {
        match *self {
            LaunchReport::DirectoryMissing => LaunchReportView::DirectoryMissing,
            LaunchReport::NotADirectory => LaunchReportView::NotADirectory,
            LaunchReport::ScriptNotWritten(m) => LaunchReportView::ScriptNotWritten(m@),
            LaunchReport::SpawnFailed(m) => LaunchReportView::SpawnFailed(m@),
            LaunchReport::GroupFailed(stage, m) => LaunchReportView::GroupFailed(stage, m@),
            LaunchReport::Started { pid, grouped } => LaunchReportView::Started { pid, grouped },
        }
    }
}

/// The words that open the message for a failed step of the group set-up.
pub open spec fn group_stage_prefix(stage: GroupStage) -> Seq<char> {
    match stage {
        GroupStage::Create => "创建 Job Object 失败: "@,
        GroupStage::Configure => "设置 Job Object 信息失败: "@,
        GroupStage::OpenProcess => "打开进程句柄失败: "@,
        GroupStage::Assign => "将进程添加到 Job Object 失败: "@,
    }
}

/// The working directory named in a message: the requested one, or nothing.
pub open spec fn directory_text(params: ParamsView) -> Seq<char> {
    match params.working_directory {
        Some(d) => d,
        None => Seq::empty(),
    }
}

/// The error that a launch report stands for; `None` for a started process.
pub open spec fn launch_error(params: ParamsView, report: LaunchReportView) -> Option<
    RunnerErrorView,
> {
    match report {
        LaunchReportView::DirectoryMissing => Some(
            RunnerErrorView::Validation("工作目录不存在: "@ + directory_text(params)),
        ),
        LaunchReportView::NotADirectory => Some(
            RunnerErrorView::Validation("工作目录路径不是目录: "@ + directory_text(params)),
        ),
        LaunchReportView::ScriptNotWritten(m) => Some(
            RunnerErrorView::Elevation("创建临时批处理文件失败: "@ + m),
        ),
        LaunchReportView::SpawnFailed(m) => Some(RunnerErrorView::Spawn("启动命令失败: "@ + m)),
        LaunchReportView::GroupFailed(stage, m) => Some(
            RunnerErrorView::Elevation(group_stage_prefix(stage) + m),
        ),
        LaunchReportView::Started { .. } => None,
    }
}

/// The error with which `execute` answers, if any: `AlreadyRunning` for a
/// running command whatever the report says, otherwise the report's error.
pub open spec fn execute_error(
    before: RunnerView,
    params: ParamsView,
    report: LaunchReportView,
) -> Option<RunnerErrorView> {
    if before.status_of(params.command_id) == CommandStatus::Running {
        Some(RunnerErrorView::AlreadyRunning)
    } else {
        launch_error(params, report)
    }
}

fn group_stage_text(stage: GroupStage) -> (r: &'static str)
    ensures
        r@ == group_stage_prefix(stage),
{
    match stage {
        GroupStage::Create => "创建 Job Object 失败: ",
        GroupStage::Configure => "设置 Job Object 信息失败: ",
        GroupStage::OpenProcess => "打开进程句柄失败: ",
        GroupStage::Assign => "将进程添加到 Job Object 失败: ",
    }
}

fn prefixed(prefix: &str, detail: &str) -> (r: String)
    ensures
        r@ == prefix@ + detail@,
{
    let mut s = String::from_str(prefix);
    s.append(detail);
    s
}

fn directory_message(prefix: &str, params: &ExecuteCommandParams) -> (r: String)
    ensures
        r@ == prefix@ + directory_text(params@),
{
    let mut s = String::from_str(prefix);
    match &params.working_directory {
        Some(d) => {
            s.append(d.as_str());
        },
        None => {
            assert(s@ + Seq::<char>::empty() =~= s@);
        },
    }
    s
}

/// What a launch report comes to: the process id and whether the process is
/// grouped for a started process, the error for every other report.
pub fn launch_outcome(params: &ExecuteCommandParams, report: &LaunchReport) -> (r: Result<
    (u32, bool),
    RunnerError,
>)
    ensures
        match launch_error(params@, report@) {
            Some(e) => r matches Err(err) && err@ == e,
            None => r matches Ok(started) && report@ == (LaunchReportView::Started {
                pid: started.0,
                grouped: started.1,
            }),
        },
{
    match report {
        LaunchReport::DirectoryMissing => Err(
            RunnerError::Validation(directory_message("工作目录不存在: ", params)),
        ),
        LaunchReport::NotADirectory => Err(
            RunnerError::Validation(directory_message("工作目录路径不是目录: ", params)),
        ),
        LaunchReport::ScriptNotWritten(m) => Err(
            RunnerError::Elevation(prefixed("创建临时批处理文件失败: ", m.as_str())),
        ),
        LaunchReport::SpawnFailed(m) => Err(
            RunnerError::Spawn(prefixed("启动命令失败: ", m.as_str())),
        ),
        LaunchReport::GroupFailed(stage, m) => Err(
            RunnerError::Elevation(prefixed(group_stage_text(*stage), m.as_str())),
        ),
        LaunchReport::Started { pid, grouped } => Ok((*pid, *grouped)),
    }
}

// ---------------------------------------------------------------------------
// What the registry hands back
// ---------------------------------------------------------------------------

/// What `stop` leaves for the host to do, in this order: broadcast `state`,
/// delete `temp_files`, close the viewer, destroy the process group, kill the
/// process and wait for it; then answer with `result`.
#[derive(Debug)]
pub struct StopPlan {
    /// The state that was recorded, for the observers.
    pub state: CommandState,
    /// The relay files of the run, to be deleted.
    pub temp_files: Option<TempFiles>,
    /// The label of the viewer that shows this command's log.
    pub viewer: String,
    /// Whether the run has a process group to destroy.
    pub destroy_group: bool,
    /// Whether the run has a process to kill and to wait for.
    pub kill_process: bool,
    /// `Err(NotRunning)` where the command had no resources.
    pub result: Result<(), RunnerError>,
}

/// The mathematical content of a [`StopPlan`].
pub struct StopPlanView {
    pub state: CommandStateView,
    pub temp_files: Option<TempFilesView>,
    pub viewer: Seq<char>,
    pub destroy_group: bool,
    pub kill_process: bool,
    pub result: Result<(), RunnerErrorView>,
}

impl View for StopPlan {
    type V = StopPlanView;

    open spec fn view(&self) -> StopPlanView {
        StopPlanView {
            state: self.state@,
            temp_files: opt_files(self.temp_files),
            viewer: self.viewer@,
            destroy_group: self.destroy_group,
            kill_process: self.kill_process,
            result: match self.result {
                Ok(_) => Ok(()),
                Err(e) => Err(e@),
            },
        }
    }
}

/// The label of the viewer that shows the log of `id`.
pub open spec fn viewer_label(id: i64) -> Seq<char> {
    "log-"@ + decimal(id as int)
}

/// What stopping `id` leaves for the host to do.
pub open spec fn stop_plan_of(before: RunnerView, id: i64) -> StopPlanView {
    let running = before.runs.contains_key(id);
    StopPlanView {
        state: before.next_state(id, CommandStatus::Stopped, None, None, Seq::empty()),
        temp_files: if running {
            before.runs[id].temp_files
        } else {
            None
        },
        viewer: viewer_label(id),
        destroy_group: running && before.runs[id].grouped,
        kill_process: running,
        result: if running {
            Ok(())
        } else {
            Err(RunnerErrorView::NotRunning)
        },
    }
}

/// What was read from the relay files of an elevated run: the content of
/// each file, or `None` where the file could not be read.
#[derive(Debug)]
pub struct RelayCapture {
    pub stdout: Option<String>,
    pub stderr: Option<String>,
    pub exit_code: Option<String>,
}

impl View for RelayCapture {
    type V = RelayView;

    open spec fn view(&self) -> RelayView {
        RelayView {
            stdout: opt_text(self.stdout),
            stderr: opt_text(self.stderr),
            exit_code: opt_text(self.exit_code),
        }
    }
}

/// What `finish` leaves for the host to do: broadcast the log lines and the
/// state, show the notification, delete the relay files.
#[derive(Debug)]
pub struct Completion {
    /// `false` where the command was not running any more (it was stopped
    /// meanwhile): then nothing was recorded and nothing is left to do.
    pub finalized: bool,
    /// The lines recovered from the relay files, for the observers.
    pub log_events: Vec<LogLine>,
    /// The state that was recorded, for the observers.
    pub state: Option<CommandState>,
    /// The notification to show, where the request asked for one.
    pub notification: Option<Notification>,
    /// The relay files of the run, to be deleted.
    pub cleanup: Option<TempFiles>,
}

/// The mathematical content of a [`Completion`].
pub struct CompletionView {
    pub finalized: bool,
    pub log_events: Seq<LogLineView>,
    pub state: Option<CommandStateView>,
    pub notification: Option<NotificationView>,
    pub cleanup: Option<TempFilesView>,
}

/// The views of a sequence of log lines.
pub open spec fn events(v: Seq<LogLine>) -> Seq<LogLineView> {
    v.map_values(|e: LogLine| e@)
}

impl View for Completion {
    type V = CompletionView;

    open spec fn view(&self) -> CompletionView {
        CompletionView {
            finalized: self.finalized,
            log_events: events(self.log_events@),
            state: match self.state {
                Some(s) => Some(s@),
                None => None,
            },
            notification: opt_notification(self.notification),
            cleanup: opt_files(self.cleanup),
        }
    }
}

/// One event for each line of one stream.
pub open spec fn line_events(id: i64, stream: Seq<char>, lines: Seq<Seq<char>>) -> Seq<
    LogLineView,
> {
    Seq::new(lines.len(), |i: int| LogLineView { command_id: id, line: lines[i], stream })
}

/// The events for what the relay files hold: standard output first, then
/// standard error.
pub open spec fn relay_events(id: i64, relay: RelayView) -> Seq<LogLineView> {
    line_events(id, "stdout"@, relay_lines(relay.stdout)) + line_events(
        id,
        "stderr"@,
        relay_lines(relay.stderr),
    )
}

/// What the end of the process of `id` leaves for the host to do.
pub open spec fn completion_of(
    before: RunnerView,
    id: i64,
    exit: ProcessExit,
    relay: RelayView,
) -> CompletionView {
    if before.runs.contains_key(id) {
        let run = before.runs[id];
        let code = before.exit_code_at_finish(id, exit, relay);
        CompletionView {
            finalized: true,
            log_events: if run.temp_files is Some {
                relay_events(id, relay)
            } else {
                Seq::empty()
            },
            state: Some(before.next_state(id, final_status(code), None, code, Seq::empty())),
            notification: if run.params.notification_when_finished {
                notification_of(run.params.command_name, final_status(code), code)
            } else {
                None
            },
            cleanup: run.temp_files,
        }
    } else {
        CompletionView {
            finalized: false,
            log_events: Seq::empty(),
            state: None,
            notification: None,
            cleanup: None,
        }
    }
}

// ---------------------------------------------------------------------------
// The registry
// ---------------------------------------------------------------------------

/// The resources of a running command.
struct RunResources {
    params: ExecuteCommandParams,
    temp_files: Option<TempFiles>,
    grouped: bool,
}

impl View for RunResources {
    type V = RunView;

    closed spec fn view(&self) -> RunView {
        RunView {
            params: self.params@,
            temp_files: opt_files(self.temp_files),
            grouped: self.grouped,
        }
    }
}

/// The registry of all commands: their states, the resources of those that
/// run, and their logs.
pub struct CommandRunner {
    states: HashMap<i64, CommandState>,
    runs: HashMap<i64, RunResources>,
    logs: HashMap<i64, Vec<String>>,
}

/// The views of a map of states.
pub open spec fn state_views(m: Map<i64, CommandState>) -> Map<i64, CommandStateView> {
    Map::new(|k: i64| m.contains_key(k), |k: i64| m[k]@)
}

/// Reads the local clock and writes the time as RFC 3339 text: wraps
/// `chrono::Local::now` and `DateTime::to_rfc3339`. The text depends on the
/// moment of the call, so nothing is claimed of it.
#[verifier::external_body]
fn local_timestamp() -> String {
    chrono::Local::now().to_rfc3339()
}

/// Writes a log entry: the stream's tag in square brackets, a space, the
/// line.
pub fn format_log_line(stream: &str, line: &str) -> (r: String)
    ensures
        r@ == format_log(stream@, line@),
{
    let mut s = String::from_str("[");
    s.append(stream);
    s.append("] ");
    s.append(line);
    s
}

/// A copy of a log.
fn clone_lines(v: &Vec<String>) -> (r: Vec<String>)
    ensures
        r@ == v@,
{
    let mut r: Vec<String> = Vec::new();
    let mut i: usize = 0;
    while i < v.len()
        invariant
            i <= v.len(),
            r@ == v@.take(i as int),
        decreases v.len() - i,
    {
        r.push(v[i].clone());
        assert(v@.take(i + 1) =~= v@.take(i as int).push(v@[i as int]));
        i += 1;
    }
    assert(v@.take(v.len() as int) =~= v@);
    r
}

/// Appends the lines of one relayed stream to a log, and an event for each
/// to `out`.
fn append_relayed(
    log: &mut Vec<String>,
    out: &mut Vec<LogLine>,
    id: i64,
    content: &Option<String>,
    stream: &str,
)
    ensures
        texts(final(log)@) == texts(old(log)@) + tagged(
            stream@,
            relay_lines(opt_text(*content)),
        ),
        events(final(out)@) == events(old(out)@) + line_events(
            id,
            stream@,
            relay_lines(opt_text(*content)),
        ),
{
    let ghost log0 = texts(log@);
    let ghost out0 = events(out@);
    let ghost all = relay_lines(opt_text(*content));
    match content {
        Some(text) => {
            let lines = split_lines(text.as_str());
            assert(texts(lines@) == all);
            let mut i: usize = 0;
            assert(log0 + tagged(stream@, all).take(0) =~= log0);
            assert(out0 + line_events(id, stream@, all).take(0) =~= out0);
            while i < lines.len()
                invariant
                    i <= lines.len(),
                    texts(lines@) == all,
                    texts(log@) == log0 + tagged(stream@, all).take(i as int),
                    events(out@) == out0 + line_events(id, stream@, all).take(i as int),
                decreases lines.len() - i,
            {
                let line = lines[i].clone();
                assert(line@ == all[i as int]) by {
                    assert(texts(lines@)[i as int] == lines@[i as int]@);
                }
                let entry = format_log_line(stream, line.as_str());
                let ghost log_before = log@;
                let ghost out_before = out@;
                log.push(entry);
                let event = LogLine { command_id: id, line, stream: String::from_str(stream) };
                out.push(event);
                proof {
                    let t = tagged(stream@, all);
                    let e = line_events(id, stream@, all);
                    assert(texts(log@) =~= texts(log_before).push(entry@));
                    assert(t.take(i + 1) =~= t.take(i as int).push(t[i as int]));
                    assert(texts(log@) =~= log0 + t.take(i + 1));
                    assert(events(out@) =~= events(out_before).push(event@));
                    assert(e.take(i + 1) =~= e.take(i as int).push(e[i as int]));
                    assert(events(out@) =~= out0 + e.take(i + 1));
                }
                i += 1;
            }
            proof {
                let t = tagged(stream@, all);
                let e = line_events(id, stream@, all);
                assert(t.take(t.len() as int) =~= t);
                assert(e.take(e.len() as int) =~= e);
            }
        },
        None => {
            assert(log0 + tagged(stream@, all) =~= log0);
            assert(out0 + line_events(id, stream@, all) =~= out0);
        },
    }
}

impl View for CommandRunner {
    type V = RunnerView;

    closed spec fn view(&self) -> RunnerView {
        RunnerView {
            states: state_views(self.states@),
            runs: Map::new(|k: i64| self.runs@.contains_key(k), |k: i64| self.runs@[k]@),
            logs: Map::new(|k: i64| self.logs@.contains_key(k), |k: i64| texts(self.logs@[k]@)),
        }
    }
}

impl CommandRunner {
    /// A registry in which no command ever ran.
    pub fn new() -> (r: Self)
        ensures
            r@ == RunnerView::empty(),
            r@.inv(),
    {
        let r = CommandRunner { states: HashMap::new(), runs: HashMap::new(), logs: HashMap::new() };
        assert(r@.states =~= Map::empty());
        assert(r@.runs =~= Map::empty());
        assert(r@.logs =~= Map::empty());
        r
    }

    /// The recorded state of a command, if it ever ran.
    pub fn get_state(&self, command_id: i64) -> (r: Option<CommandState>)
        ensures
            match r {
                Some(s) => self@.states.contains_key(command_id) && s@ == self@.states[command_id],
                None => !self@.states.contains_key(command_id),
            },
    {
        match self.states.get(&command_id) {
            Some(s) => Some(s.clone()),
            None => None,
        }
    }

    /// The recorded states of all commands.
    pub fn get_all_states(&self) -> (r: HashMap<i64, CommandState>)
        ensures
            state_views(r@) == self@.states,
    {
        self.states.clone()
    }

    /// The status of a command: the recorded one, or `Idle`.
    pub fn status(&self, command_id: i64) -> (r: CommandStatus)
        ensures
            r == self@.status_of(command_id),
    {
        match self.states.get(&command_id) {
            Some(s) => s.status,
            None => CommandStatus::Idle,
        }
    }

    /// Whether a command is running, that is, holds resources.
    pub fn is_running(&self, command_id: i64) -> (r: bool)
        ensures
            r == self@.runs.contains_key(command_id),
    {
        self.runs.contains_key(&command_id)
    }

    /// Records a transition of `command_id`. The start time is `now` for a
    /// transition to `Running` and stays what it was for every other.
    fn update_state(
        &mut self,
        command_id: i64,
        status: CommandStatus,
        pid: Option<u32>,
        exit_code: Option<i32>,
        now: Option<String>,
    ) -> (r: CommandState)
        requires
            status == CommandStatus::Running ==> now is Some,
        ensures
            r@ == old(self)@.next_state(
                command_id,
                status,
                pid,
                exit_code,
                match now {
                    Some(t) => t@,
                    None => Seq::empty(),
                },
            ),
            final(self)@.states == old(self)@.states.insert(command_id, r@),
            final(self)@.runs == old(self)@.runs,
            final(self)@.logs == old(self)@.logs,
    {
        let start_time = if status == CommandStatus::Running {
            now
        } else {
            match self.states.get(&command_id) {
                Some(s) => clone_opt_string(&s.start_time),
                None => None,
            }
        };
        let state = CommandState { command_id, status, pid, start_time, exit_code };
        let copy = state.clone();
        self.states.insert(command_id, state);
        assert(self@.states =~= old(self)@.states.insert(command_id, copy@));
        copy
    }

    /// Whether a run of `command_id` may start: `Err(AlreadyRunning)` while
    /// it is running. The host asks before it creates a process.
    pub fn can_execute(&self, command_id: i64) -> (r: Result<(), RunnerError>)
        ensures
            self@.status_of(command_id) == CommandStatus::Running ==> r matches Err(
                RunnerError::AlreadyRunning,
            ),
            self@.status_of(command_id) != CommandStatus::Running ==> r is Ok,
    {
        if self.status(command_id) == CommandStatus::Running {
            Err(RunnerError::AlreadyRunning)
        } else {
            Ok(())
        }
    }

    /// Registers a started run.
    fn register(
        &mut self,
        params: ExecuteCommandParams,
        temp_files: Option<TempFiles>,
        grouped: bool,
        pid: u32,
        now: String,
    ) -> (r: CommandState)
        ensures
            final(self)@ == old(self)@.started(params@, opt_files(temp_files), grouped, pid, now@),
            r@ == final(self)@.states[params.command_id],
    {
        let id = params.command_id;
        let state = self.update_state(id, CommandStatus::Running, Some(pid), None, Some(now));
        self.runs.insert(id, RunResources { params, temp_files, grouped });
        self.logs.insert(id, Vec::new());
        proof {
            let want = old(self)@.started(params@, opt_files(temp_files), grouped, pid, now@);
            assert(texts(Seq::<String>::empty()) =~= Seq::<Seq<char>>::empty());
            assert(self@.states =~= want.states);
            assert(self@.runs =~= want.runs);
            assert(self@.logs =~= want.logs);
        }
        state
    }

    /// Records the start of a run at the time `now`.
    ///
    /// A running command is refused with `AlreadyRunning`; a launch that
    /// failed is answered with its error. Either way nothing changes. A
    /// started process makes the command `Running` since `now`, with its
    /// resources registered and an empty log; the state is handed back for
    /// the observers.
    pub fn execute_at(
        &mut self,
        params: ExecuteCommandParams,
        temp_files: Option<TempFiles>,
        report: LaunchReport,
        now: String,
    ) -> (r: Result<CommandState, RunnerError>)
        ensures
            match execute_error(old(self)@, params@, report@) {
                Some(e) => {
                    &&& final(self)@ == old(self)@
                    &&& r matches Err(err)
                    &&& err@ == e
                },
                None => {
                    &&& report matches LaunchReport::Started { pid, grouped }
                    &&& r matches Ok(state)
                    &&& final(self)@ == old(self)@.started(
                        params@,
                        opt_files(temp_files),
                        grouped,
                        pid,
                        now@,
                    )
                    &&& state@ == final(self)@.states[params.command_id]
                },
            },
            old(self)@.inv() ==> final(self)@.inv(),
    {
        if self.status(params.command_id) == CommandStatus::Running {
            return Err(RunnerError::AlreadyRunning);
        }
        match launch_outcome(&params, &report) {
            Err(e) => Err(e),
            Ok((pid, grouped)) => {
                proof {
                    if self@.inv() {
                        crate::laws::lemma_started_keeps_inv(
                            self@,
                            params@,
                            opt_files(temp_files),
                            grouped,
                            pid,
                            now@,
                        );
                    }
                }
                Ok(self.register(params, temp_files, grouped, pid, now))
            },
        }
    }

    /// Records the start of a run at the present time.
    ///
    /// As [`CommandRunner::execute_at`], with the local clock read for the
    /// start time: the time is the one in the state handed back.
    pub fn execute(
        &mut self,
        params: ExecuteCommandParams,
        temp_files: Option<TempFiles>,
        report: LaunchReport,
    ) -> (r: Result<CommandState, RunnerError>)
        ensures
            match execute_error(old(self)@, params@, report@) {
                Some(e) => {
                    &&& final(self)@ == old(self)@
                    &&& r matches Err(err)
                    &&& err@ == e
                },
                None => {
                    &&& report matches LaunchReport::Started { pid, grouped }
                    &&& r matches Ok(state)
                    &&& state@.start_time matches Some(now)
                    &&& final(self)@ == old(self)@.started(
                        params@,
                        opt_files(temp_files),
                        grouped,
                        pid,
                        now,
                    )
                    &&& state@ == final(self)@.states[params.command_id]
                },
            },
            old(self)@.inv() ==> final(self)@.inv(),
    {
        if self.status(params.command_id) == CommandStatus::Running {
            return Err(RunnerError::AlreadyRunning);
        }
        match launch_outcome(&params, &report) {
            Err(e) => Err(e),
            Ok((pid, grouped)) => {
                let now = local_timestamp();
                proof {
                    if self@.inv() {
                        crate::laws::lemma_started_keeps_inv(
                            self@,
                            params@,
                            opt_files(temp_files),
                            grouped,
                            pid,
                            now@,
                        );
                    }
                }
                Ok(self.register(params, temp_files, grouped, pid, now))
            },
        }
    }

    /// Stops a command.
    ///
    /// `Stopped` is recorded first and in any case, so that a watcher that
    /// finishes at the same moment finds it and gives way. The log and the
    /// resources of the command are dropped. The answer is `NotRunning`
    /// exactly when the command held no resources; the plan says what is
    /// left for the host to do.
    pub fn stop(&mut self, command_id: i64) -> (plan: StopPlan)
        ensures
            final(self)@ == old(self)@.stopped(command_id),
            plan@ == stop_plan_of(old(self)@, command_id),
            old(self)@.inv() && old(self)@.status_of(command_id) != CommandStatus::Running
                ==> plan.result matches Err(RunnerError::NotRunning),
            old(self)@.inv() ==> final(self)@.inv(),
    {
        proof {
            if self@.inv() {
                crate::laws::lemma_stopped_keeps_inv(self@, command_id);
            }
        }
        let state = self.update_state(command_id, CommandStatus::Stopped, None, None, None);
        let run = self.runs.remove(&command_id);
        self.logs.remove(&command_id);
        let mut viewer = String::from_str("log-");
        push_decimal(&mut viewer, command_id);
        proof {
            let want = old(self)@.stopped(command_id);
            assert(self@.states =~= want.states);
            assert(self@.runs =~= want.runs);
            assert(self@.logs =~= want.logs);
        }
        match run {
            Some(r) => StopPlan {
                state,
                temp_files: r.temp_files,
                viewer,
                destroy_group: r.grouped,
                kill_process: true,
                result: Ok(()),
            },
            None => StopPlan {
                state,
                temp_files: None,
                viewer,
                destroy_group: false,
                kill_process: false,
                result: Err(RunnerError::NotRunning),
            },
        }
    }

    /// The relay files that the watcher of `command_id` has to read before
    /// it calls `finish`: those of a running command that goes through the
    /// elevation broker.
    pub fn relay_files(&self, command_id: i64) -> (r: Option<TempFiles>)
        ensures
            opt_files(r) == if self@.runs.contains_key(command_id) {
                self@.runs[command_id].temp_files
            } else {
                None
            },
    {
        match self.runs.get(&command_id) {
            Some(run) => clone_opt_files(&run.temp_files),
            None => None,
        }
    }

    /// Records the end of the process of a command.
    ///
    /// Where the command is not running any more (it was stopped meanwhile)
    /// nothing changes and nothing is left to do: a recorded `Stopped` is
    /// never overwritten. Otherwise the relayed output joins the log, the
    /// state becomes `Success` or `Failed` with the resolved exit code, the
    /// resources are dropped, and the completion says what the host has to
    /// broadcast, announce and delete.
    pub fn finish(&mut self, command_id: i64, exit: ProcessExit, relay: &RelayCapture) -> (done:
        Completion)
        ensures
            final(self)@ == old(self)@.finished(command_id, exit, relay@),
            done@ == completion_of(old(self)@, command_id, exit, relay@),
            old(self)@.inv() ==> final(self)@.inv(),
    {
        proof {
            if self@.inv() {
                crate::laws::lemma_finished_keeps_inv(self@, command_id, exit, relay@);
            }
        }
        let run = match self.runs.remove(&command_id) {
            Some(run) => run,
            None => {
                assert(self@.states =~= old(self)@.states);
                assert(self@.runs =~= old(self)@.runs);
                assert(self@.logs =~= old(self)@.logs);
                let none: Vec<LogLine> = Vec::new();
                assert(events(none@) =~= Seq::<LogLineView>::empty());
                return Completion {
                    finalized: false,
                    log_events: none,
                    state: None,
                    notification: None,
                    cleanup: None,
                };
            },
        };
        let relayed = run.temp_files.is_some();
        // the relayed output joins the log
        let mut log_events: Vec<LogLine> = Vec::new();
        let had_log = self.logs.contains_key(&command_id);
        let mut log = match self.logs.remove(&command_id) {
            Some(log) => log,
            None => Vec::new(),
        };
        let ghost log0 = texts(log@);
        assert(log0 == old(self)@.log_of(command_id)) by {
            if !had_log {
                assert(texts(Seq::<String>::empty()) =~= Seq::<Seq<char>>::empty());
            }
        }
        assert(events(log_events@) =~= Seq::<LogLineView>::empty());
        if relayed {
            append_relayed(&mut log, &mut log_events, command_id, &relay.stdout, "stdout");
            append_relayed(&mut log, &mut log_events, command_id, &relay.stderr, "stderr");
            proof {
                let a = tagged("stdout"@, relay_lines(relay@.stdout));
                let b = tagged("stderr"@, relay_lines(relay@.stderr));
                assert((log0 + a) + b =~= log0 + (a + b));
                let c = line_events(command_id, "stdout"@, relay_lines(relay@.stdout));
                let d = line_events(command_id, "stderr"@, relay_lines(relay@.stderr));
                assert((Seq::<LogLineView>::empty() + c) + d =~= c + d);
            }
        } else {
            assert(log0 + Seq::<Seq<char>>::empty() =~= log0);
        }
        self.logs.insert(command_id, log);
        // the exit code and the status
        let exit_code = match exit {
            ProcessExit::WaitFailed => None,
            ProcessExit::Exited(code) => {
                let recovered = if relayed {
                    match &relay.exit_code {
                        Some(text) => parse_trimmed_i32(text.as_str()),
                        None => None,
                    }
                } else {
                    None
                };
                match recovered {
                    Some(v) => Some(v),
                    None => code,
                }
            },
        };
        assert(exit_code == old(self)@.exit_code_at_finish(command_id, exit, relay@));
        let status = match exit_code {
            Some(0) => CommandStatus::Success,
            _ => CommandStatus::Failed,
        };
        assert(status == final_status(exit_code));
        let state = self.update_state(command_id, status, None, exit_code, None);
        let notification = if run.params.notification_when_finished {
            build_notification(run.params.command_name.as_str(), status, exit_code)
        } else {
            None
        };
        proof {
            let want = old(self)@.finished(command_id, exit, relay@);
            assert(self@.states =~= want.states);
            assert(self@.runs =~= want.runs);
            assert(self@.logs =~= want.logs);
        }
        Completion {
            finalized: true,
            log_events,
            state: Some(state),
            notification,
            cleanup: run.temp_files,
        }
    }

    /// Records a line read from a stream of a command: the entry joins the
    /// end of the command's log, where it has one. The line is handed back
    /// as an event for the observers in either case.
    pub fn append_log(&mut self, command_id: i64, line: String, stream: &str) -> (event: LogLine)
        ensures
            final(self)@ == old(self)@.logged(command_id, stream@, line@),
            event@ == (LogLineView { command_id, line: line@, stream: stream@ }),
            old(self)@.inv() ==> final(self)@.inv(),
    {
        match self.logs.remove(&command_id) {
            Some(mut log) => {
                let ghost before = log@;
                let entry = format_log_line(stream, line.as_str());
                log.push(entry);
                assert(texts(log@) =~= texts(before).push(entry@));
                self.logs.insert(command_id, log);
                proof {
                    let want = old(self)@.logged(command_id, stream@, line@);
                    assert(self@.states =~= want.states);
                    assert(self@.runs =~= want.runs);
                    assert(self@.logs =~= want.logs);
                }
            },
            None => {
                assert(self@.states =~= old(self)@.states);
                assert(self@.runs =~= old(self)@.runs);
                assert(self@.logs =~= old(self)@.logs);
            },
        }
        LogLine { command_id, line, stream: String::from_str(stream) }
    }

    /// The log of a command, oldest line first; empty where it has none.
    pub fn get_logs(&self, command_id: i64) -> (r: Vec<String>)
        ensures
            texts(r@) == self@.log_of(command_id),
    {
        match self.logs.get(&command_id) {
            Some(log) => clone_lines(log),
            None => {
                let r: Vec<String> = Vec::new();
                assert(texts(r@) =~= Seq::<Seq<char>>::empty());
                r
            },
        }
    }

    /// Empties the log of a command, where it has one.
    pub fn clear_logs(&mut self, command_id: i64)
        ensures
            final(self)@ == old(self)@.cleared(command_id),
            old(self)@.inv() ==> final(self)@.inv(),
    {
        if self.logs.contains_key(&command_id) {
            self.logs.insert(command_id, Vec::new());
            proof {
                let want = old(self)@.cleared(command_id);
                assert(texts(Seq::<String>::empty()) =~= Seq::<Seq<char>>::empty());
                assert(self@.states =~= want.states);
                assert(self@.runs =~= want.runs);
                assert(self@.logs =~= want.logs);
            }
        }
    }

    /// Whether the log of a command holds a line.
    pub fn has_logs(&self, command_id: i64) -> (r: bool)
        ensures
            r == (self@.log_of(command_id).len() > 0),
    {
        match self.logs.get(&command_id) {
            Some(log) => log.len() > 0,
            None => false,
        }
    }
}

} // verus!
