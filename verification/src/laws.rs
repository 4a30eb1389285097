//! What holds of the supervisor and its monitors over whole runs: the laws
//! that relate several transitions to one another.

use crate::config::{sidecar_name, worker_command_view};
use crate::error::{abnormal_exit_text, lemma_exit_message_holds_code, SidecarErrorView};
use crate::http::HttpRequestView;
use crate::monitor::{MonitorActionView, MonitorState, WorkerEventView};
use crate::supervisor::{
    lemma_failed_start_names_program, SpawnOutcomeView, StartOutcomeView, StartStepView, StopStep,
    SupervisorState,
};
use crate::text::{occurs_in, signed_decimal};
use vstd::prelude::*;

verus! {

/// How one whole start went: the record after it, whether a process was
/// spawned for it, and whether its caller was told that it succeeded.
pub struct StartRound {
    pub record: SupervisorState,
    pub spawned: bool,
    pub succeeded: bool,
}

/// One whole start by one caller, against an executable that launches: the
/// start, and, where it asks for a spawn, the report that the process is
/// launched.
pub open spec fn start_round(record: SupervisorState, configured: Option<Seq<char>>) -> StartRound {
    let begun = record.after_start(configured);
    match record.start_step(configured) {
        StartStepView::AlreadyRunning => StartRound {
            record: begun,
            spawned: false,
            succeeded: true,
        },
        StartStepView::Spawn(command) => StartRound {
            record: begun.after_spawn(command.program, SpawnOutcomeView::Spawned),
            spawned: true,
            succeeded: begun.spawn_result(command.program, SpawnOutcomeView::Spawned).is_success(),
        },
        StartStepView::Failed(_) => StartRound { record: begun, spawned: false, succeeded: false },
    }
}

/// The record after `n` whole starts in a row.
pub open spec fn after_rounds(record: SupervisorState, configured: Option<Seq<char>>, n: nat)
    -> SupervisorState
    decreases n,
{
    if n == 0 {
        record
    } else {
        after_rounds(start_round(record, configured).record, configured, (n - 1) as nat)
    }
}

/// How many processes are spawned by `n` whole starts in a row.
pub open spec fn spawned_in(record: SupervisorState, configured: Option<Seq<char>>, n: nat) -> nat
    decreases n,
{
    if n == 0 {
        0
    } else {
        let round = start_round(record, configured);
        (if round.spawned {
            1nat
        } else {
            0nat
        }) + spawned_in(round.record, configured, (n - 1) as nat)
    }
}

/// How many of `n` whole starts in a row tell their caller that they
/// succeeded.
pub open spec fn succeeded_in(record: SupervisorState, configured: Option<Seq<char>>, n: nat)
    -> nat
    decreases n,
{
    if n == 0 {
        0
    } else {
        let round = start_round(record, configured);
        (if round.succeeded {
            1nat
        } else {
            0nat
        }) + succeeded_in(round.record, configured, (n - 1) as nat)
    }
}

/// Every transition keeps the record well formed.
pub proof fn lemma_transitions_keep_wf(
    record: SupervisorState,
    configured: Option<Seq<char>>,
    program: Seq<char>,
    outcome: SpawnOutcomeView,
    failure: Option<Seq<char>>,
    generation: u64,
    error: Option<Seq<char>>,
)
    requires
        record.wf(),
    ensures
        SupervisorState::initial().wf(),
        record.after_start(configured).wf(),
        record.after_spawn(program, outcome).wf(),
        record.after_stop().wf(),
        record.after_kill(failure).wf(),
        record.after_exit(generation, error).wf(),
{
}

/// A worker that is taken on gets a generation that is larger than every
/// generation given out before, and the count of spawns moves up to it.
pub proof fn lemma_generations_grow(
    record: SupervisorState,
    program: Seq<char>,
    outcome: SpawnOutcomeView,
)
    requires
        record.wf(),
        record.spawn_result(program, outcome) is Started,
    ensures
        record.spawn_result(program, outcome)->Started_handle.generation == record.spawns + 1,
        record.spawn_result(program, outcome)->grace_ms == 1000,
        record.after_spawn(program, outcome).handle == Some((record.spawns + 1) as u64),
        record.after_spawn(program, outcome).spawns == record.spawns + 1,
        record.after_spawn(program, outcome).last_error == record.last_error,
{
}

/// Started twice with no stop in between, the supervisor spawns one process
/// and both starts succeed: the first asks for the spawn and takes the
/// process on, the second finds the worker alive and changes nothing.
pub proof fn lemma_start_twice_spawns_once(
    record: SupervisorState,
    first: Option<Seq<char>>,
    second: Option<Seq<char>>,
)
    requires
        record.wf(),
        record.can_adopt(),
    ensures
        record.start_step(first) == StartStepView::Spawn(worker_command_view(first)),
        ({
            let begun = record.after_start(first);
            let program = sidecar_name(first);
            let running = begun.after_spawn(program, SpawnOutcomeView::Spawned);
            &&& begun.spawn_result(program, SpawnOutcomeView::Spawned) is Started
            &&& running.is_running()
            &&& running.start_step(second) == StartStepView::AlreadyRunning
            &&& running.after_start(second) == running
        }),
        spawned_in(record, first, 2) == 1,
        succeeded_in(record, first, 2) == 2,
{
    lemma_starts_spawn_once(record, first, 2);
}

/// With a worker alive, any number of starts spawns nothing, succeeds every
/// time and leaves the record as it is.
pub proof fn lemma_starts_while_running(
    record: SupervisorState,
    configured: Option<Seq<char>>,
    n: nat,
)
    requires
        record.is_running(),
    ensures
        spawned_in(record, configured, n) == 0,
        succeeded_in(record, configured, n) == n,
        after_rounds(record, configured, n) == record,
    decreases n,
{
    if n > 0 {
        lemma_starts_while_running(record, configured, (n - 1) as nat);
    }
}

/// Any number of callers that start a supervisor with no worker, one after
/// the other as the lock lets them in, spawn exactly one process between
/// them, and every one of them is told that the start succeeded.
pub proof fn lemma_starts_spawn_once(
    record: SupervisorState,
    configured: Option<Seq<char>>,
    n: nat,
)
    requires
        record.wf(),
        record.can_adopt(),
        n >= 1,
    ensures
        spawned_in(record, configured, n) == 1,
        succeeded_in(record, configured, n) == n,
        after_rounds(record, configured, n).is_running(),
        after_rounds(record, configured, n).handle == Some((record.spawns + 1) as u64),
{
    let round = start_round(record, configured);
    assert(round.spawned && round.succeeded && round.record.is_running());
    lemma_starts_while_running(round.record, configured, (n - 1) as nat);
}

/// Two starts that race, each asking for its spawn before the other has
/// reported: the process that is reported first becomes the worker, the
/// other is one too many, and both callers are told that the start succeeded.
pub proof fn lemma_racing_starts_keep_one_worker(
    record: SupervisorState,
    first: Option<Seq<char>>,
    second: Option<Seq<char>>,
)
    requires
        record.wf(),
        record.can_adopt(),
    ensures
        ({
            let begun = record.after_start(first).after_start(second);
            let one = begun.after_spawn(sidecar_name(first), SpawnOutcomeView::Spawned);
            let both = one.after_spawn(sidecar_name(second), SpawnOutcomeView::Spawned);
            &&& record.after_start(first).start_step(second) is Spawn
            &&& begun.spawn_result(sidecar_name(first), SpawnOutcomeView::Spawned) is Started
            &&& one.spawn_result(sidecar_name(second), SpawnOutcomeView::Spawned)
                == StartOutcomeView::Surplus
            &&& both == one
            &&& both.handle == Some((record.spawns + 1) as u64)
        }),
{
}

/// A stop with no worker alive succeeds, asks for nothing and changes
/// nothing.
pub proof fn lemma_stop_when_idle(record: SupervisorState)
    requires
        !record.is_running(),
    ensures
        record.stop_step() == StopStep::NotRunning,
        record.after_stop() == record,
{
}

/// A stop lets go of the worker whether or not the worker can be
/// terminated: after it, and after the report of the termination, no worker
/// is alive, and a failure to terminate is on record.
pub proof fn lemma_stop_always_releases(record: SupervisorState, failure: Option<Seq<char>>)
    requires
        record.wf(),
    ensures
        !record.after_stop().is_running(),
        !record.after_stop().after_kill(failure).is_running(),
        failure is Some ==> record.after_stop().after_kill(failure).last_error is Some,
        failure is None ==> record.after_stop().after_kill(failure).last_error == record.last_error,
        record.after_stop().stop_step() == StopStep::NotRunning,
{
}

/// A start whose spawn fails leaves no worker alive and puts a message on
/// record that holds the name of the executable.
pub proof fn lemma_failed_spawn_names_executable(
    record: SupervisorState,
    configured: Option<Seq<char>>,
    outcome: SpawnOutcomeView,
)
    requires
        record.wf(),
        record.can_adopt(),
        !(outcome is Spawned),
    ensures
        ({
            let program = sidecar_name(configured);
            let after = record.after_start(configured).after_spawn(program, outcome);
            &&& record.after_start(configured).spawn_result(program, outcome) is Failed
            &&& !after.is_running()
            &&& after.last_error is Some
            &&& occurs_in(program, after.last_error->0)
        }),
{
    lemma_failed_start_names_program(
        record.after_start(configured),
        sidecar_name(configured),
        outcome,
    );
}

/// When the live worker ends, its monitor lets go of it. An exit with code
/// zero leaves the last error as it was; any other exit, and an exit with no
/// code, puts a message on record, which holds the code if there is one.
pub proof fn lemma_exit_of_live_worker(
    monitor: MonitorState,
    record: SupervisorState,
    code: Option<i32>,
)
    requires
        !monitor.terminal,
        record.handle == Some(monitor.generation),
    ensures
        ({
            let after = monitor.record_after(record, WorkerEventView::Terminated(code));
            &&& !after.is_running()
            &&& monitor.after(WorkerEventView::Terminated(code)).terminal
            &&& monitor.action(record, WorkerEventView::Terminated(code))
                == (MonitorActionView::Finished { released: true })
            &&& code == Some(0i32) ==> after.last_error == record.last_error
            &&& code != Some(0i32) ==> after.last_error == Some(abnormal_exit_text(code))
            &&& code matches Some(c) ==> c != 0 ==> occurs_in(
                signed_decimal(c as int),
                after.last_error->0,
            )
        }),
{
    if let Some(c) = code {
        lemma_exit_message_holds_code(c);
    }
}

/// A monitor whose worker is not the live one changes nothing in the
/// record, whatever events it is given: not when another worker has taken
/// its worker's place, and not when a stop has let go of its worker.
pub proof fn lemma_stale_monitor_changes_nothing(
    monitor: MonitorState,
    record: SupervisorState,
    events: Seq<WorkerEventView>,
)
    requires
        record.handle != Some(monitor.generation),
    ensures
        monitor.record_after_all(record, events) == record,
    decreases events.len(),
{
    if events.len() > 0 {
        lemma_stale_monitor_changes_nothing(
            monitor.after(events.first()),
            record,
            events.drop_first(),
        );
    }
}

/// A monitor that is done stays done and changes nothing in the record,
/// whatever events it is given afterwards.
pub proof fn lemma_finished_monitor_changes_nothing(
    monitor: MonitorState,
    record: SupervisorState,
    events: Seq<WorkerEventView>,
)
    requires
        monitor.terminal,
    ensures
        monitor.after_all(events) == monitor,
        monitor.record_after_all(record, events) == record,
        forall|i: int|
            0 <= i < events.len() ==> monitor.action(record, #[trigger] events[i])
                == (MonitorActionView::Finished { released: false }),
    decreases events.len(),
{
    if events.len() > 0 {
        assert(monitor.after(events.first()) == monitor);
        lemma_finished_monitor_changes_nothing(monitor, record, events.drop_first());
    }
}

/// Of a whole stream, only the first event that ends the worker counts: the
/// events before it leave the record as it is, and the events after it are
/// not processed.
pub proof fn lemma_first_terminal_event_decides(
    monitor: MonitorState,
    record: SupervisorState,
    before: Seq<WorkerEventView>,
    ending: WorkerEventView,
    after: Seq<WorkerEventView>,
)
    requires
        !monitor.terminal,
        forall|i: int| 0 <= i < before.len() ==> !(#[trigger] before[i]).is_terminal(),
        ending.is_terminal(),
    ensures
        monitor.record_after_all(record, before + seq![ending] + after) == record.after_exit(
            monitor.generation,
            ending.failure_text(),
        ),
        monitor.after_all(before + seq![ending] + after).terminal,
    decreases before.len(),
{
    let events = before + seq![ending] + after;
    if before.len() == 0 {
        assert(events.first() == ending);
        assert(events.drop_first() =~= after);
        lemma_finished_monitor_changes_nothing(
            monitor.after(ending),
            monitor.record_after(record, ending),
            after,
        );
    } else {
        assert(events.first() == before[0]);
        assert(events.drop_first() =~= before.drop_first() + seq![ending] + after);
        assert(monitor.after(before[0]) == monitor);
        assert forall|i: int| 0 <= i < before.drop_first().len() implies !(
        #[trigger] before.drop_first()[i]).is_terminal() by {
            assert(before.drop_first()[i] == before[i + 1]);
        }
        lemma_first_terminal_event_decides(monitor, record, before.drop_first(), ending, after);
    }
}

/// After a stop, the end of the stopped worker is no news: the monitor that
/// sees it changes nothing, so no failure is recorded for a worker that was
/// stopped on purpose.
pub proof fn lemma_exit_after_stop_is_ignored(
    monitor: MonitorState,
    record: SupervisorState,
    event: WorkerEventView,
)
    requires
        record.wf(),
    ensures
        monitor.record_after(record.after_stop(), event) == record.after_stop(),
{
}

/// A monitor of an earlier worker cannot let go of a later one: once a new
/// worker is taken on, the events of any monitor made before leave the
/// record as it is.
pub proof fn lemma_old_monitor_spares_new_worker(
    monitor: MonitorState,
    record: SupervisorState,
    program: Seq<char>,
    events: Seq<WorkerEventView>,
)
    requires
        record.wf(),
        monitor.generation <= record.spawns,
        record.spawn_result(program, SpawnOutcomeView::Spawned) is Started,
    ensures
        monitor.record_after_all(
            record.after_spawn(program, SpawnOutcomeView::Spawned),
            events,
        ) == record.after_spawn(program, SpawnOutcomeView::Spawned),
{
    lemma_stale_monitor_changes_nothing(
        monitor,
        record.after_spawn(program, SpawnOutcomeView::Spawned),
        events,
    );
}

/// One thing that happens to the record: any transition of the supervisor,
/// by whichever caller or monitor has the lock.
pub enum Step {
    /// A start says what it asks of its caller.
    Start { configured: Option<Seq<char>> },
    /// The spawn of a start is reported.
    SpawnReport { program: Seq<char>, outcome: SpawnOutcomeView },
    /// A stop lets go of the worker.
    Stop,
    /// The termination that a stop asked for is reported.
    KillReport { failure: Option<Seq<char>> },
    /// A monitor of the generation `generation` sees its worker end.
    Exit { generation: u64, error: Option<Seq<char>> },
    /// The timeout of control requests is set.
    Timeout { ms: u64 },
}

/// The record after one step.
pub open spec fn after_step(record: SupervisorState, step: Step) -> SupervisorState {
    match step {
        Step::Start { configured } => record.after_start(configured),
        Step::SpawnReport { program, outcome } => record.after_spawn(program, outcome),
        Step::Stop => record.after_stop(),
        Step::KillReport { failure } => record.after_kill(failure),
        Step::Exit { generation, error } => record.after_exit(generation, error),
        Step::Timeout { ms } => SupervisorState { timeout_ms: ms, ..record },
    }
}

/// The record after a history of steps, in any interleaving of callers and
/// monitors.
pub open spec fn after_steps(record: SupervisorState, steps: Seq<Step>) -> SupervisorState
    decreases steps.len(),
{
    if steps.len() == 0 {
        record
    } else {
        after_steps(after_step(record, steps.first()), steps.drop_first())
    }
}

/// Whatever happens to a well-formed record, in whatever order, it stays
/// well formed and its count of spawns never goes down: at most one worker
/// is alive at any time, and it is the one that was spawned last.
pub proof fn lemma_history_keeps_wf(record: SupervisorState, steps: Seq<Step>)
    requires
        record.wf(),
    ensures
        after_steps(record, steps).wf(),
        after_steps(record, steps).spawns >= record.spawns,
    decreases steps.len(),
{
    if steps.len() > 0 {
        lemma_history_keeps_wf(after_step(record, steps.first()), steps.drop_first());
    }
}

/// A generation that has been given out and is not alive never comes back:
/// whatever happens afterwards, no worker is alive under it again. So a
/// monitor whose worker is gone stays without effect for good, however its
/// events interleave with starts and stops.
pub proof fn lemma_gone_generation_stays_gone(
    record: SupervisorState,
    steps: Seq<Step>,
    generation: u64,
)
    requires
        record.wf(),
        generation <= record.spawns,
        record.handle != Some(generation),
    ensures
        after_steps(record, steps).handle != Some(generation),
    decreases steps.len(),
{
    if steps.len() > 0 {
        lemma_gone_generation_stays_gone(
            after_step(record, steps.first()),
            steps.drop_first(),
            generation,
        );
    }
}

/// A worker that is taken on after any history gets a generation that no
/// worker before it had.
pub proof fn lemma_generation_is_never_reused(
    record: SupervisorState,
    steps: Seq<Step>,
    program: Seq<char>,
)
    requires
        record.wf(),
        after_steps(record, steps).spawn_result(program, SpawnOutcomeView::Spawned) is Started,
    ensures
        after_steps(record, steps).spawn_result(
            program,
            SpawnOutcomeView::Spawned,
        )->Started_handle.generation > record.spawns,
{
    lemma_history_keeps_wf(record, steps);
}

/// The control client follows the worker: its requests are let through
/// exactly while a worker is alive, so they fail before the first start,
/// pass once a worker is taken on, and fail again once the worker is seen to
/// have ended or is stopped.
pub proof fn lemma_control_follows_worker(
    record: SupervisorState,
    program: Seq<char>,
    monitor: MonitorState,
    event: WorkerEventView,
    prompt: Seq<char>,
)
    requires
        record.wf(),
    ensures
        SupervisorState::initial().health_check() == Err::<HttpRequestView, _>(
            SidecarErrorView::NotRunning,
        ),
        SupervisorState::initial().send_prompt(prompt) == Err::<HttpRequestView, _>(
            SidecarErrorView::NotRunning,
        ),
        record.health_check() is Ok <==> record.is_running(),
        record.send_prompt(prompt) is Ok ==> record.is_running(),
        record.spawn_result(program, SpawnOutcomeView::Spawned) is Started ==> record.after_spawn(
            program,
            SpawnOutcomeView::Spawned,
        ).health_check() is Ok,
        record.after_stop().health_check() == Err::<HttpRequestView, _>(
            SidecarErrorView::NotRunning,
        ),
        !monitor.terminal && event.is_terminal() && record.handle == Some(monitor.generation)
            ==> monitor.record_after(record, event).health_check() == Err::<HttpRequestView, _>(
            SidecarErrorView::NotRunning,
        ),
{
}

} // verus!
