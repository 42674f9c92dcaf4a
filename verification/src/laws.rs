//! What holds of the registry whatever its host does: the invariant, and
//! the laws of `execute`, `stop`, the watcher and the log.

use vstd::prelude::*;
use crate::command_runner::{execute_error, stop_plan_of, LaunchReportView, RunnerErrorView};
use crate::model::{format_log, relay_log, ProcessExit, RelayView, RunnerEvent, RunnerView};
use crate::state::{CommandStatus, ParamsView, TempFilesView};
use crate::text::{parse_i32, trim};

verus! {

// ---------------------------------------------------------------------------
// The invariant
// ---------------------------------------------------------------------------

/// Starting a run keeps the invariant.
pub proof fn lemma_started_keeps_inv(
    v: RunnerView,
    params: ParamsView,
    temp_files: Option<TempFilesView>,
    grouped: bool,
    pid: u32,
    now: Seq<char>,
)
    requires
        v.inv(),
    ensures
        v.started(params, temp_files, grouped, pid, now).inv(),
{
    let w = v.started(params, temp_files, grouped, pid, now);
    let id = params.command_id;
    assert forall|k: i64| #[trigger] w.states.contains_key(k) implies w.states[k].recorded_for(
        k,
    ) by {
        if k != id {
            assert(v.states.contains_key(k));
        }
    }
    assert forall|k: i64| #[trigger]
        w.runs.contains_key(k) <==> w.status_of(k) == CommandStatus::Running by {
        if k != id {
            assert(v.runs.contains_key(k) <==> v.status_of(k) == CommandStatus::Running);
        }
    }
    assert forall|k: i64| #[trigger] w.runs.contains_key(k) implies w.logs.contains_key(k)
        && w.runs[k].params.command_id == k by {
        if k != id {
            assert(v.runs.contains_key(k));
        }
    }
}

/// Stopping a command keeps the invariant.
pub proof fn lemma_stopped_keeps_inv(v: RunnerView, id: i64)
    requires
        v.inv(),
    ensures
        v.stopped(id).inv(),
{
    let w = v.stopped(id);
    assert forall|k: i64| #[trigger] w.states.contains_key(k) implies w.states[k].recorded_for(
        k,
    ) by {
        if k != id {
            assert(v.states.contains_key(k));
        }
    }
    assert forall|k: i64| #[trigger]
        w.runs.contains_key(k) <==> w.status_of(k) == CommandStatus::Running by {
        if k != id {
            assert(v.runs.contains_key(k) <==> v.status_of(k) == CommandStatus::Running);
        }
    }
    assert forall|k: i64| #[trigger] w.runs.contains_key(k) implies w.logs.contains_key(k)
        && w.runs[k].params.command_id == k by {
        assert(k != id);
        assert(v.runs.contains_key(k));
    }
}

/// The end of a process keeps the invariant.
pub proof fn lemma_finished_keeps_inv(v: RunnerView, id: i64, exit: ProcessExit, relay: RelayView)
    requires
        v.inv(),
    ensures
        v.finished(id, exit, relay).inv(),
{
    let w = v.finished(id, exit, relay);
    if v.runs.contains_key(id) {
        assert forall|k: i64| #[trigger] w.states.contains_key(k) implies w.states[k].recorded_for(
            k,
        ) by {
            if k != id {
                assert(v.states.contains_key(k));
            }
        }
        assert forall|k: i64| #[trigger]
            w.runs.contains_key(k) <==> w.status_of(k) == CommandStatus::Running by {
            if k != id {
                assert(v.runs.contains_key(k) <==> v.status_of(k) == CommandStatus::Running);
            }
        }
        assert forall|k: i64| #[trigger] w.runs.contains_key(k) implies w.logs.contains_key(k)
            && w.runs[k].params.command_id == k by {
            assert(k != id);
            assert(v.runs.contains_key(k));
        }
    }
}

/// A logged line keeps the invariant.
pub proof fn lemma_logged_keeps_inv(v: RunnerView, id: i64, stream: Seq<char>, line: Seq<char>)
    requires
        v.inv(),
    ensures
        v.logged(id, stream, line).inv(),
{
    let w = v.logged(id, stream, line);
    assert forall|k: i64| #[trigger] w.runs.contains_key(k) implies w.logs.contains_key(k)
        && w.runs[k].params.command_id == k by {
        assert(v.runs.contains_key(k));
    }
    assert forall|k: i64| #[trigger]
        w.runs.contains_key(k) <==> w.status_of(k) == CommandStatus::Running by {
        assert(v.runs.contains_key(k) <==> v.status_of(k) == CommandStatus::Running);
    }
}

/// Clearing a log keeps the invariant.
pub proof fn lemma_cleared_keeps_inv(v: RunnerView, id: i64)
    requires
        v.inv(),
    ensures
        v.cleared(id).inv(),
{
    let w = v.cleared(id);
    assert forall|k: i64| #[trigger] w.runs.contains_key(k) implies w.logs.contains_key(k)
        && w.runs[k].params.command_id == k by {
        assert(v.runs.contains_key(k));
    }
    assert forall|k: i64| #[trigger]
        w.runs.contains_key(k) <==> w.status_of(k) == CommandStatus::Running by {
        assert(v.runs.contains_key(k) <==> v.status_of(k) == CommandStatus::Running);
    }
}

/// Every event keeps the invariant.
pub proof fn lemma_event_keeps_inv(v: RunnerView, event: RunnerEvent)
    requires
        v.inv(),
    ensures
        v.after(event).inv(),
{
    match event {
        RunnerEvent::Started { params, temp_files, grouped, pid, now } => {
            lemma_started_keeps_inv(v, params, temp_files, grouped, pid, now);
        },
        RunnerEvent::Stopped { id } => {
            lemma_stopped_keeps_inv(v, id);
        },
        RunnerEvent::Finished { id, exit, relay } => {
            lemma_finished_keeps_inv(v, id, exit, relay);
        },
        RunnerEvent::Logged { id, stream, line } => {
            lemma_logged_keeps_inv(v, id, stream, line);
        },
        RunnerEvent::Cleared { id } => {
            lemma_cleared_keeps_inv(v, id);
        },
    }
}

/// The invariant holds in every state that a registry can reach: in the
/// empty registry, and after any sequence of events from a state in which
/// it holds. So at any time a command has resources exactly while it is
/// `Running`, every running command has a process id, a start time and a
/// log, and at most one state is recorded for each command.
pub proof fn law_invariant(v: RunnerView, events: Seq<RunnerEvent>)
    requires
        v.inv(),
    ensures
        RunnerView::empty().inv(),
        v.after_all(events).inv(),
    decreases events.len(),
{
    if events.len() > 0 {
        law_invariant(v, events.drop_last());
        lemma_event_keeps_inv(v.after_all(events.drop_last()), events.last());
    }
}

// ---------------------------------------------------------------------------
// execute
// ---------------------------------------------------------------------------

/// While a command is running, an `execute` of it is answered with
/// `AlreadyRunning`, whatever the host reports, and changes nothing: no
/// state, no resources, no log.
pub proof fn law_execute_while_running(
    v: RunnerView,
    params: ParamsView,
    temp_files: Option<TempFilesView>,
    report: LaunchReportView,
    grouped: bool,
    pid: u32,
    now: Seq<char>,
)
    requires
        v.status_of(params.command_id) == CommandStatus::Running,
    ensures
        execute_error(v, params, report) == Some(RunnerErrorView::AlreadyRunning),
        v.after(RunnerEvent::Started { params, temp_files, grouped, pid, now }) == v,
{
}

/// A second `execute` directly after a first that started the command is
/// refused, and leaves the first run as it was.
pub proof fn law_execute_twice(
    v: RunnerView,
    first: ParamsView,
    temp_files: Option<TempFilesView>,
    grouped: bool,
    pid: u32,
    now: Seq<char>,
    second: ParamsView,
    report: LaunchReportView,
)
    requires
        first.command_id == second.command_id,
    ensures
        ({
            let running = v.started(first, temp_files, grouped, pid, now);
            &&& running.status_of(first.command_id) == CommandStatus::Running
            &&& execute_error(running, second, report) == Some(RunnerErrorView::AlreadyRunning)
        }),
{
}

// ---------------------------------------------------------------------------
// stop
// ---------------------------------------------------------------------------

/// `stop` on a command that is not running (it is `Idle`, `Success`,
/// `Failed` or `Stopped`) is answered with `NotRunning`.
pub proof fn law_stop_when_not_running(v: RunnerView, id: i64)
    requires
        v.inv(),
        v.status_of(id) != CommandStatus::Running,
    ensures
        stop_plan_of(v, id).result == Err::<(), RunnerErrorView>(RunnerErrorView::NotRunning),
        !stop_plan_of(v, id).kill_process,
{
    assert(v.runs.contains_key(id) <==> v.status_of(id) == CommandStatus::Running);
}

/// `stop` on a running command succeeds and leaves it `Stopped`, without
/// resources and without a log.
pub proof fn law_stop_when_running(v: RunnerView, id: i64)
    requires
        v.inv(),
        v.status_of(id) == CommandStatus::Running,
    ensures
        stop_plan_of(v, id).result is Ok,
        stop_plan_of(v, id).kill_process,
        v.stopped(id).status_of(id) == CommandStatus::Stopped,
        !v.stopped(id).runs.contains_key(id),
        !v.stopped(id).logs.contains_key(id),
{
    assert(v.runs.contains_key(id) <==> v.status_of(id) == CommandStatus::Running);
}

/// Without an `execute` of `id`, no event gives `id` resources that it does
/// not hold, and none changes the state of a command without resources,
/// except a `stop`, which records `Stopped`.
proof fn lemma_stays_stopped(v: RunnerView, id: i64, events: Seq<RunnerEvent>)
    requires
        v.status_of(id) == CommandStatus::Stopped,
        !v.runs.contains_key(id),
        forall|i: int| 0 <= i < events.len() ==> !(#[trigger] events[i]).starts(id),
    ensures
        v.after_all(events).status_of(id) == CommandStatus::Stopped,
        !v.after_all(events).runs.contains_key(id),
    decreases events.len(),
{
    if events.len() > 0 {
        let rest = events.drop_last();
        assert forall|i: int| 0 <= i < rest.len() implies !(#[trigger] rest[i]).starts(id) by {
            assert(rest[i] == events[i]);
        }
        lemma_stays_stopped(v, id, rest);
        assert(!events[events.len() - 1].starts(id));
    }
}

/// Once `stop` has recorded `Stopped`, the command stays `Stopped` until it
/// is executed again: whatever the watcher reports afterwards, and in
/// whatever order the other events arrive, no `Success` or `Failed` takes
/// its place.
pub proof fn law_stop_wins(v: RunnerView, id: i64, events: Seq<RunnerEvent>)
    requires
        forall|i: int| 0 <= i < events.len() ==> !(#[trigger] events[i]).starts(id),
    ensures
        v.stopped(id).after_all(events).status_of(id) == CommandStatus::Stopped,
{
    lemma_stays_stopped(v.stopped(id), id, events);
}

/// In particular the watcher's report that follows a `stop` changes nothing
/// at all.
pub proof fn law_finish_after_stop(v: RunnerView, id: i64, exit: ProcessExit, relay: RelayView)
    ensures
        v.stopped(id).finished(id, exit, relay) == v.stopped(id),
{
}

/// The lifecycle of a command, one event at a time. A running command
/// stays `Running` or ends as `Success`, `Failed` or `Stopped`. A command
/// that is not running keeps its status, unless it is executed (it is
/// `Running` then) or stopped (it is `Stopped` then). No event makes a
/// command `Idle`, and the end of a process records nothing but `Success`
/// or `Failed`.
pub proof fn law_lifecycle(v: RunnerView, id: i64, event: RunnerEvent)
    requires
        v.inv(),
    ensures
        ({
            let before = v.status_of(id);
            let after = v.after(event).status_of(id);
            &&& before != CommandStatus::Idle ==> after != CommandStatus::Idle
            &&& before == CommandStatus::Running ==> after == CommandStatus::Running
                || after.terminal()
            &&& before != CommandStatus::Running ==> {
                ||| after == before
                ||| after == CommandStatus::Running && event.starts(id)
                ||| after == CommandStatus::Stopped && event == (RunnerEvent::Stopped { id })
            }
            &&& event is Finished && after != before ==> after == CommandStatus::Success || after
                == CommandStatus::Failed
        }),
{
    assert(v.runs.contains_key(id) <==> v.status_of(id) == CommandStatus::Running);
    if v.states.contains_key(id) {
        assert(v.states[id].status != CommandStatus::Idle);
    }
}

/// The start time of a command is set when it is executed and kept until
/// it is executed again: no stop, no end of a process and no log line
/// changes it.
pub proof fn law_start_time_kept(v: RunnerView, id: i64, events: Seq<RunnerEvent>)
    requires
        forall|i: int| 0 <= i < events.len() ==> !(#[trigger] events[i]).starts(id),
    ensures
        v.after_all(events).start_time_of(id) == v.start_time_of(id),
    decreases events.len(),
{
    if events.len() > 0 {
        let rest = events.drop_last();
        assert forall|i: int| 0 <= i < rest.len() implies !(#[trigger] rest[i]).starts(id) by {
            assert(rest[i] == events[i]);
        }
        law_start_time_kept(v, id, rest);
        assert(!events[events.len() - 1].starts(id));
    }
}

/// A run never goes backward: a command that is not running does not run
/// again unless it is executed again.
pub proof fn law_no_run_without_execute(v: RunnerView, id: i64, events: Seq<RunnerEvent>)
    requires
        v.inv(),
        v.status_of(id) != CommandStatus::Running,
        forall|i: int| 0 <= i < events.len() ==> !(#[trigger] events[i]).starts(id),
    ensures
        v.after_all(events).status_of(id) != CommandStatus::Running,
    decreases events.len(),
{
    if events.len() > 0 {
        let rest = events.drop_last();
        assert forall|i: int| 0 <= i < rest.len() implies !(#[trigger] rest[i]).starts(id) by {
            assert(rest[i] == events[i]);
        }
        law_no_run_without_execute(v, id, rest);
        law_invariant(v, rest);
        let w = v.after_all(rest);
        assert(w.runs.contains_key(id) <==> w.status_of(id) == CommandStatus::Running);
        assert(!events[events.len() - 1].starts(id));
    }
}

// ---------------------------------------------------------------------------
// The relay
// ---------------------------------------------------------------------------

/// What a relayed run hands back stands over what the broker says of
/// itself. Where the exit-code file holds the number `code`, the run ends
/// with that exit code, as `Success` exactly when it is zero, whatever the
/// broker's own process returned; and the lines of the two output files
/// join the log, standard output first.
pub proof fn law_relay_stands(
    v: RunnerView,
    id: i64,
    broker_code: Option<i32>,
    relay: RelayView,
    code: i32,
)
    requires
        v.runs.contains_key(id),
        v.runs[id].temp_files is Some,
        relay.exit_code matches Some(text) && parse_i32(trim(text)) == Some(code),
    ensures
        ({
            let w = v.finished(id, ProcessExit::Exited(broker_code), relay);
            &&& w.states[id].exit_code == Some(code)
            &&& w.status_of(id) == if code == 0 {
                CommandStatus::Success
            } else {
                CommandStatus::Failed
            }
            &&& w.log_of(id) == v.log_of(id) + relay_log(relay)
        }),
{
}

// ---------------------------------------------------------------------------
// The log
// ---------------------------------------------------------------------------

/// Whether `a` is the beginning of `b`.
pub open spec fn is_prefix(a: Seq<Seq<char>>, b: Seq<Seq<char>>) -> bool {
    a.len() <= b.len() && b.take(a.len() as int) == a
}

/// A line that is logged for a command with a log becomes the last entry;
/// the entries before it stay as they were.
pub proof fn law_logged_last(v: RunnerView, id: i64, stream: Seq<char>, line: Seq<char>)
    requires
        v.logs.contains_key(id),
    ensures
        v.logged(id, stream, line).log_of(id) == v.log_of(id).push(format_log(stream, line)),
{
}

/// The log keeps the order of emission: as long as the command is neither
/// stopped, cleared nor executed again, every event leaves the entries that
/// the log holds where they are, and adds new ones only behind them.
pub proof fn law_log_append_only(v: RunnerView, id: i64, events: Seq<RunnerEvent>)
    requires
        forall|i: int| 0 <= i < events.len() ==> !(#[trigger] events[i]).resets_log(id),
    ensures
        is_prefix(v.log_of(id), v.after_all(events).log_of(id)),
    decreases events.len(),
{
    if events.len() == 0 {
        assert(v.log_of(id).take(v.log_of(id).len() as int) =~= v.log_of(id));
    } else {
        let rest = events.drop_last();
        assert forall|i: int| 0 <= i < rest.len() implies !(#[trigger] rest[i]).resets_log(id) by {
            assert(rest[i] == events[i]);
        }
        law_log_append_only(v, id, rest);
        let w = v.after_all(rest);
        let e = events[events.len() - 1];
        assert(!e.resets_log(id));
        let x = w.after(e);
        assert(is_prefix(w.log_of(id), x.log_of(id))) by {
            let a = w.log_of(id);
            let b = x.log_of(id);
            match e {
                RunnerEvent::Finished { id: other, exit, relay } => {
                    if other == id && w.runs.contains_key(id) {
                        assert(b == a + w.log_at_finish(id, relay));
                    }
                },
                _ => {},
            }
            assert(a.len() <= b.len());
            assert(b.take(a.len() as int) =~= a);
        }
        let a = v.log_of(id);
        let b = w.log_of(id);
        let c = x.log_of(id);
        assert(c.take(a.len() as int) =~= a) by {
            assert(c.take(b.len() as int) == b);
            assert(b.take(a.len() as int) == a);
            assert forall|i: int| 0 <= i < a.len() implies c[i] == a[i] by {
                assert(c.take(b.len() as int)[i] == c[i]);
                assert(b.take(a.len() as int)[i] == b[i]);
            }
        }
    }
}

/// The entries that a sequence of events logs for `id`, in the order of the
/// events.
pub open spec fn emitted(events: Seq<RunnerEvent>, id: i64) -> Seq<Seq<char>>
    decreases events.len(),
{
    if events.len() == 0 {
        Seq::empty()
    } else {
        let earlier = emitted(events.drop_last(), id);
        match events.last() {
            RunnerEvent::Logged { id: other, stream, line } => if other == id {
                earlier.push(format_log(stream, line))
            } else {
                earlier
            },
            _ => earlier,
        }
    }
}

/// While a command runs, its log is what was logged for it, in the order
/// in which it was logged: lines of one stream never change places, and a
/// later read shows what an earlier read showed, followed by what was
/// logged since.
pub proof fn law_log_is_emission_order(v: RunnerView, id: i64, events: Seq<RunnerEvent>)
    requires
        v.logs.contains_key(id),
        forall|i: int|
            0 <= i < events.len() ==> !(#[trigger] events[i]).resets_log(id) && !(events[i]
                matches RunnerEvent::Finished { id: other, .. } && other == id),
    ensures
        v.after_all(events).logs.contains_key(id),
        v.after_all(events).log_of(id) == v.log_of(id) + emitted(events, id),
    decreases events.len(),
{
    if events.len() == 0 {
        assert(v.log_of(id) + Seq::<Seq<char>>::empty() =~= v.log_of(id));
    } else {
        let rest = events.drop_last();
        assert forall|i: int| 0 <= i < rest.len() implies !(#[trigger] rest[i]).resets_log(id)
            && !(rest[i] matches RunnerEvent::Finished { id: other, .. } && other == id) by {
            assert(rest[i] == events[i]);
        }
        law_log_is_emission_order(v, id, rest);
        let e = events[events.len() - 1];
        assert(!e.resets_log(id));
        let w = v.after_all(rest);
        assert(w.after(e).log_of(id) =~= v.log_of(id) + emitted(events, id));
    }
}

} // verus!
