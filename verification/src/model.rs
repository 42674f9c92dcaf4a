//! The registry as a mathematical state machine: what is recorded for each
//! command, the transitions between such records, and the invariant that
//! every transition keeps.

use vstd::prelude::*;
use crate::state::{CommandStateView, CommandStatus, ParamsView, TempFilesView};
use crate::text::{lines, parse_i32, trim};

verus! {

/// How the wait for a process ended.
#[derive(Debug, Clone, Copy)]
pub enum ProcessExit {
    /// The process ended; its exit code, if it has one (a process that a
    /// signal ended has none).
    Exited(Option<i32>),
    /// Waiting for the process failed.
    WaitFailed,
}

/// What was read from the relay files of an elevated run: the content of
/// each file, or `None` where the file could not be read.
pub struct RelayView {
    pub stdout: Option<Seq<char>>,
    pub stderr: Option<Seq<char>>,
    pub exit_code: Option<Seq<char>>,
}

/// The resources of a running command.
pub struct RunView {
    /// The request that started the run.
    pub params: ParamsView,
    /// The relay files, where the run goes through the elevation broker.
    pub temp_files: Option<TempFilesView>,
    /// Whether the process was put in a process group.
    pub grouped: bool,
}

/// Everything the registry records.
pub struct RunnerView {
    /// The last recorded state of each command that ever ran.
    pub states: Map<i64, CommandStateView>,
    /// The resources of each running command.
    pub runs: Map<i64, RunView>,
    /// The log of each command, oldest line first.
    pub logs: Map<i64, Seq<Seq<char>>>,
}

/// A log entry: the stream's tag in square brackets, a space, the line.
pub open spec fn format_log(stream: Seq<char>, line: Seq<char>) -> Seq<char> {
    "["@ + stream + "] "@ + line
}

/// The log entries for the lines of one stream.
pub open spec fn tagged(stream: Seq<char>, lines: Seq<Seq<char>>) -> Seq<Seq<char>> {
    Seq::new(lines.len(), |i: int| format_log(stream, lines[i]))
}

/// The lines of a relayed stream, or none where the file could not be read.
pub open spec fn relay_lines(content: Option<Seq<char>>) -> Seq<Seq<char>> {
    match content {
        Some(text) => lines(text),
        None => Seq::empty(),
    }
}

/// The log entries recovered from the relay files: standard output first,
/// then standard error.
pub open spec fn relay_log(relay: RelayView) -> Seq<Seq<char>> {
    tagged("stdout"@, relay_lines(relay.stdout)) + tagged("stderr"@, relay_lines(relay.stderr))
}

/// The exit code of a finished run. Where the run went through relay files
/// and the exit-code file holds a number, that number stands, whatever the
/// broker's own process returned; otherwise the process's own code stands.
/// A failed wait gives no code.
pub open spec fn resolved_exit_code(
    exit: ProcessExit,
    relayed: bool,
    relay_exit: Option<Seq<char>>,
) -> Option<i32> {
    match exit {
        ProcessExit::WaitFailed => None,
        ProcessExit::Exited(code) => if relayed && relay_exit is Some && parse_i32(
            trim(relay_exit->0),
        ) is Some {
            parse_i32(trim(relay_exit->0))
        } else {
            code
        },
    }
}

/// The status in which a run ends: `Success` exactly when its exit code is
/// zero.
pub open spec fn final_status(exit_code: Option<i32>) -> CommandStatus {
    if exit_code == Some(0i32) {
        CommandStatus::Success
    } else {
        CommandStatus::Failed
    }
}

impl RunnerView {
    /// The registry in which no command ever ran.
    pub open spec fn empty() -> RunnerView {
        RunnerView { states: Map::empty(), runs: Map::empty(), logs: Map::empty() }
    }

    /// The status of a command: the recorded one, or `Idle`.
    pub open spec fn status_of(self, id: i64) -> CommandStatus {
        if self.states.contains_key(id) {
            self.states[id].status
        } else {
            CommandStatus::Idle
        }
    }

    /// The start time recorded for a command, if any.
    pub open spec fn start_time_of(self, id: i64) -> Option<Seq<char>> {
        if self.states.contains_key(id) {
            self.states[id].start_time
        } else {
            None
        }
    }

    /// The log of a command; empty where it has none.
    pub open spec fn log_of(self, id: i64) -> Seq<Seq<char>> {
        if self.logs.contains_key(id) {
            self.logs[id]
        } else {
            Seq::empty()
        }
    }

    /// The state that a transition records. The start time is set by a
    /// transition to `Running` and kept by every other.
    pub open spec fn next_state(
        self,
        id: i64,
        status: CommandStatus,
        pid: Option<u32>,
        exit_code: Option<i32>,
        now: Seq<char>,
    ) -> CommandStateView {
        CommandStateView {
            command_id: id,
            status,
            pid,
            start_time: if status == CommandStatus::Running {
                Some(now)
            } else {
                self.start_time_of(id)
            },
            exit_code,
        }
    }

    /// What holds of every registry that the transitions below can reach:
    /// every recorded state is one that can be recorded for its command; a
    /// command has resources exactly while it is `Running`; and a command
    /// with resources has a log, and resources that name it.
    pub open spec fn inv(self) -> bool {
        &&& forall|id: i64| #[trigger]
            self.states.contains_key(id) ==> self.states[id].recorded_for(id)
        &&& forall|id: i64| #[trigger]
            self.runs.contains_key(id) <==> self.status_of(id) == CommandStatus::Running
        &&& forall|id: i64| #[trigger]
            self.runs.contains_key(id) ==> self.logs.contains_key(id) && self.runs[id].params.command_id
                == id
    }

    /// A command was started: it is `Running` under `pid` since `now`, its
    /// resources are registered, its log is empty.
    pub open spec fn started(
        self,
        params: ParamsView,
        temp_files: Option<TempFilesView>,
        grouped: bool,
        pid: u32,
        now: Seq<char>,
    ) -> RunnerView {
        let id = params.command_id;
        RunnerView {
            states: self.states.insert(
                id,
                self.next_state(id, CommandStatus::Running, Some(pid), None, now),
            ),
            runs: self.runs.insert(id, RunView { params, temp_files, grouped }),
            logs: self.logs.insert(id, Seq::empty()),
        }
    }

    /// A command was stopped: it is `Stopped`, without process id or exit
    /// code; its resources and its log are gone.
    pub open spec fn stopped(self, id: i64) -> RunnerView {
        RunnerView {
            states: self.states.insert(
                id,
                self.next_state(id, CommandStatus::Stopped, None, None, Seq::empty()),
            ),
            runs: self.runs.remove(id),
            logs: self.logs.remove(id),
        }
    }

    /// The exit code with which the run of `id` ends.
    pub open spec fn exit_code_at_finish(self, id: i64, exit: ProcessExit, relay: RelayView) -> Option<
        i32,
    > {
        resolved_exit_code(exit, self.runs[id].temp_files is Some, relay.exit_code)
    }

    /// What the relay adds to the log of `id` when its run ends.
    pub open spec fn log_at_finish(self, id: i64, relay: RelayView) -> Seq<Seq<char>> {
        if self.runs[id].temp_files is Some {
            relay_log(relay)
        } else {
            Seq::empty()
        }
    }

    /// The process of a command ended. Where the command is still running,
    /// the relayed output joins its log, its state becomes `Success` or
    /// `Failed` with the resolved exit code, and its resources are gone.
    /// Where it is not (it was stopped meanwhile, or never ran), nothing
    /// changes.
    pub open spec fn finished(self, id: i64, exit: ProcessExit, relay: RelayView) -> RunnerView {
        if self.runs.contains_key(id) {
            let code = self.exit_code_at_finish(id, exit, relay);
            RunnerView {
                states: self.states.insert(
                    id,
                    self.next_state(id, final_status(code), None, code, Seq::empty()),
                ),
                runs: self.runs.remove(id),
                logs: self.logs.insert(id, self.log_of(id) + self.log_at_finish(id, relay)),
            }
        } else {
            self
        }
    }

    /// A line was read from a stream of `id`: it joins the end of the log,
    /// where the command has one.
    pub open spec fn logged(self, id: i64, stream: Seq<char>, line: Seq<char>) -> RunnerView {
        if self.logs.contains_key(id) {
            RunnerView { logs: self.logs.insert(id, self.logs[id].push(format_log(stream, line))), ..self }
        } else {
            self
        }
    }

    /// The log of `id` was cleared: it is empty, where the command has one.
    pub open spec fn cleared(self, id: i64) -> RunnerView {
        if self.logs.contains_key(id) {
            RunnerView { logs: self.logs.insert(id, Seq::empty()), ..self }
        } else {
            self
        }
    }
}

/// One step of the registry, as its host triggers it.
pub enum RunnerEvent {
    /// `execute` was answered a started process.
    Started {
        params: ParamsView,
        temp_files: Option<TempFilesView>,
        grouped: bool,
        pid: u32,
        now: Seq<char>,
    },
    /// `stop` was called.
    Stopped { id: i64 },
    /// The watcher reported the end of a process.
    Finished { id: i64, exit: ProcessExit, relay: RelayView },
    /// A line was read from a stream.
    Logged { id: i64, stream: Seq<char>, line: Seq<char> },
    /// The log was cleared.
    Cleared { id: i64 },
}

impl RunnerEvent {
    /// Whether the event is an `execute` of `id`.
    pub open spec fn starts(self, id: i64) -> bool {
        self matches RunnerEvent::Started { params, .. } && params.command_id == id
    }

    /// Whether the event may take lines out of the log of `id`: a stop, a
    /// clearing, or a new run.
    pub open spec fn resets_log(self, id: i64) -> bool {
        ||| self.starts(id)
        ||| self matches RunnerEvent::Stopped { id: other } && other == id
        ||| self matches RunnerEvent::Cleared { id: other } && other == id
    }
}

impl RunnerView {
    /// The registry after one event. An `execute` of a running command is
    /// refused and changes nothing.
    pub open spec fn after(self, event: RunnerEvent) -> RunnerView {
        match event {
            RunnerEvent::Started { params, temp_files, grouped, pid, now } => if self.status_of(
                params.command_id,
            ) == CommandStatus::Running {
                self
            } else {
                self.started(params, temp_files, grouped, pid, now)
            },
            RunnerEvent::Stopped { id } => self.stopped(id),
            RunnerEvent::Finished { id, exit, relay } => self.finished(id, exit, relay),
            RunnerEvent::Logged { id, stream, line } => self.logged(id, stream, line),
            RunnerEvent::Cleared { id } => self.cleared(id),
        }
    }

    /// The registry after a sequence of events, in order.
    pub open spec fn after_all(self, events: Seq<RunnerEvent>) -> RunnerView
        decreases events.len(),
    {
        if events.len() == 0 {
            self
        } else {
            self.after_all(events.drop_last()).after(events.last())
        }
    }
}

} // verus!
