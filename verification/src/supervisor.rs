//! The process supervisor: one record that says whether a worker is alive and
//! what went wrong last, and the transitions that start and stop the worker.
//!
//! The record is one unit. Whoever shares it between callers guards the whole
//! of it with one lock and holds that lock over a transition and the report
//! of its outcome, so that what a caller reads of "is it running" and of
//! "what went wrong" always belongs together.

use crate::config::{
    sidecar_name, worker_command, worker_command_view, SpawnCommand, SpawnCommandView,
    DEFAULT_TIMEOUT_MS, START_GRACE_MS,
};
use crate::error::{
    kill_failure_text, lemma_spawn_failure_names_program, SidecarError, SidecarErrorView,
    SpawnStage,
};
use crate::text::occurs_in;
use vstd::prelude::*;
use vstd::string::*;

verus! {

/// The running worker, known by its generation: a number that grows by one
/// with every successful spawn and so tells one run of the worker from the
/// next.
#[derive(Clone, Copy, Debug, PartialEq, Eq, Structural)]
pub struct WorkerHandle {
    pub generation: u64,
}

/// What a start asks of its caller.
#[derive(Debug, PartialEq, Eq)]
pub enum StartStep {
    /// A worker is alive already: the start has succeeded and nothing is to
    /// be done.
    AlreadyRunning,
    /// Spawn this command and report how it went.
    Spawn(SpawnCommand),
    /// The start has failed before any spawn; the failure is recorded.
    Failed(SidecarError),
}

/// A `StartStep` as mathematical values.
pub enum StartStepView {
    AlreadyRunning,
    Spawn(SpawnCommandView),
    Failed(SidecarErrorView),
}

impl View for StartStep {
    type V = StartStepView;

    open spec fn view(&self) -> StartStepView {
        match self {
            StartStep::AlreadyRunning => StartStepView::AlreadyRunning,
            StartStep::Spawn(command) => StartStepView::Spawn(command@),
            StartStep::Failed(error) => StartStepView::Failed(error@),
        }
    }
}

/// How the spawn that a start asked for went.
#[derive(Debug, PartialEq, Eq)]
pub enum SpawnOutcome {
    /// The process is launched.
    Spawned,
    /// No command could be made for the executable; the text says why.
    CommandRejected(String),
    /// The command was made but the process did not launch; the text says
    /// why.
    LaunchFailed(String),
}

/// A `SpawnOutcome` as mathematical values.
pub enum SpawnOutcomeView {
    Spawned,
    CommandRejected(Seq<char>),
    LaunchFailed(Seq<char>),
}

impl View for SpawnOutcome {
    type V = SpawnOutcomeView;

    open spec fn view(&self) -> SpawnOutcomeView {
        match self {
            SpawnOutcome::Spawned => SpawnOutcomeView::Spawned,
            SpawnOutcome::CommandRejected(reason) => SpawnOutcomeView::CommandRejected(reason@),
            SpawnOutcome::LaunchFailed(reason) => SpawnOutcomeView::LaunchFailed(reason@),
        }
    }
}

/// How a start ended, once its spawn is reported.
#[derive(Debug, PartialEq, Eq)]
pub enum StartOutcome {
    /// The new process is the worker now. The caller watches its events
    /// under `handle`'s generation, waits `grace_ms` milliseconds, and then
    /// reports success.
    Started { handle: WorkerHandle, grace_ms: u64 },
    /// A worker was alive already, so the new process is one too many: the
    /// caller terminates it and reports success.
    Surplus,
    /// The start has failed and the failure is recorded. If a process was
    /// launched all the same, the caller terminates it.
    Failed(SidecarError),
}

/// A `StartOutcome` as mathematical values.
pub enum StartOutcomeView {
    Started { handle: WorkerHandle, grace_ms: u64 },
    Surplus,
    Failed(SidecarErrorView),
}

impl View for StartOutcome {
    type V = StartOutcomeView;

    open spec fn view(&self) -> StartOutcomeView {
        match self {
            StartOutcome::Started { handle, grace_ms } => StartOutcomeView::Started {
                handle: *handle,
                grace_ms: *grace_ms,
            },
            StartOutcome::Surplus => StartOutcomeView::Surplus,
            StartOutcome::Failed(error) => StartOutcomeView::Failed(error@),
        }
    }
}

impl StartOutcomeView {
    /// The caller of the start is told that it succeeded.
    pub open spec fn is_success(self) -> bool {
        !(self is Failed)
    }
}

/// What a stop asks of its caller.
#[derive(Clone, Copy, Debug, PartialEq, Eq, Structural)]
pub enum StopStep {
    /// No worker is alive: the stop has succeeded and nothing is to be done.
    NotRunning,
    /// Terminate this worker and report how it went. The supervisor has let
    /// go of it already.
    Kill(WorkerHandle),
}

/// The reason that is given when no generation is left for a new worker.
pub const NO_GENERATION_LEFT: &'static str = "no generation id is left";

/// The failure of a start for which no generation is left.
pub open spec fn generations_exhausted(program: Seq<char>) -> SidecarErrorView {
    SidecarErrorView::SpawnFailure {
        stage: SpawnStage::Launch,
        program,
        reason: NO_GENERATION_LEFT@,
    }
}

/// The failure that a reported spawn outcome stands for, if it is one.
pub open spec fn spawn_failure(program: Seq<char>, outcome: SpawnOutcomeView) -> Option<
    SidecarErrorView,
> {
    match outcome {
        SpawnOutcomeView::Spawned => None,
        SpawnOutcomeView::CommandRejected(reason) => Some(
            SidecarErrorView::SpawnFailure { stage: SpawnStage::Command, program, reason },
        ),
        SpawnOutcomeView::LaunchFailed(reason) => Some(
            SidecarErrorView::SpawnFailure { stage: SpawnStage::Launch, program, reason },
        ),
    }
}

/// The supervisor's record as mathematical values.
pub struct SupervisorState {
    /// The generation of the live worker, if there is one.
    pub handle: Option<u64>,
    /// The message of the most recent failure, if any is on record.
    pub last_error: Option<Seq<char>>,
    /// How many spawns have succeeded so far: the generation that was given
    /// out last.
    pub spawns: u64,
    /// After how many milliseconds a control request is given up.
    pub timeout_ms: u64,
}

impl SupervisorState {
    /// The live worker, if there is one, is the one that was spawned last.
    pub open spec fn wf(self) -> bool {
        self.handle matches Some(g) ==> g == self.spawns && g >= 1
    }

    /// The record of a supervisor that has not started anything yet.
    pub open spec fn initial() -> SupervisorState {
        SupervisorState {
            handle: None,
            last_error: None,
            spawns: 0,
            timeout_ms: DEFAULT_TIMEOUT_MS,
        }
    }

    /// A worker is alive.
    pub open spec fn is_running(self) -> bool {
        self.handle is Some
    }

    /// A new process can become the worker: none is alive and a generation
    /// is left for it.
    pub open spec fn can_adopt(self) -> bool {
        self.handle is None && self.spawns < u64::MAX
    }

    /// This record with `text` as its last error.
    pub open spec fn with_error(self, text: Seq<char>) -> SupervisorState {
        SupervisorState { last_error: Some(text), ..self }
    }

    /// What a start asks of its caller.
    pub open spec fn start_step(self, configured: Option<Seq<char>>) -> StartStepView {
        if self.is_running() {
            StartStepView::AlreadyRunning
        } else if self.spawns == u64::MAX {
            StartStepView::Failed(generations_exhausted(sidecar_name(configured)))
        } else {
            StartStepView::Spawn(worker_command_view(configured))
        }
    }

    /// The record after a start has said what it asks of its caller: with a
    /// worker alive nothing changes; else the last error is cleared, or is
    /// the failure of this start.
    pub open spec fn after_start(self, configured: Option<Seq<char>>) -> SupervisorState {
        if self.is_running() {
            self
        } else if self.spawns == u64::MAX {
            self.with_error(generations_exhausted(sidecar_name(configured)).text())
        } else {
            SupervisorState { last_error: None, ..self }
        }
    }

    /// How a start ends when its spawn is reported as `outcome`.
    pub open spec fn spawn_result(self, program: Seq<char>, outcome: SpawnOutcomeView)
        -> StartOutcomeView {
        match spawn_failure(program, outcome) {
            Some(failure) => StartOutcomeView::Failed(failure),
            None => if self.is_running() {
                StartOutcomeView::Surplus
            } else if self.spawns == u64::MAX {
                StartOutcomeView::Failed(generations_exhausted(program))
            } else {
                StartOutcomeView::Started {
                    handle: WorkerHandle { generation: (self.spawns + 1) as u64 },
                    grace_ms: START_GRACE_MS,
                }
            },
        }
    }

    /// The record after the spawn of a start is reported as `outcome`.
    pub open spec fn after_spawn(self, program: Seq<char>, outcome: SpawnOutcomeView)
        -> SupervisorState {
        match self.spawn_result(program, outcome) {
            StartOutcomeView::Started { handle, grace_ms } => SupervisorState {
                handle: Some(handle.generation),
                spawns: handle.generation,
                ..self
            },
            StartOutcomeView::Surplus => self,
            StartOutcomeView::Failed(failure) => self.with_error(failure.text()),
        }
    }

    /// What a stop asks of its caller.
    pub open spec fn stop_step(self) -> StopStep {
        match self.handle {
            Some(g) => StopStep::Kill(WorkerHandle { generation: g }),
            None => StopStep::NotRunning,
        }
    }

    /// The record after a stop: no worker is alive, whatever becomes of the
    /// request to terminate it.
    pub open spec fn after_stop(self) -> SupervisorState {
        SupervisorState { handle: None, ..self }
    }

    /// The record after the termination that a stop asked for is reported: a
    /// failure to terminate is put on record.
    pub open spec fn after_kill(self, failure: Option<Seq<char>>) -> SupervisorState {
        match failure {
            Some(reason) => self.with_error(kill_failure_text(reason)),
            None => self,
        }
    }

    /// The record after the worker of generation `generation` is seen to be
    /// gone, with `error` as the message to record, if any. Only the worker
    /// that is alive now can be gone: for any other generation nothing
    /// changes.
    pub open spec fn after_exit(self, generation: u64, error: Option<Seq<char>>)
        -> SupervisorState {
        if self.handle == Some(generation) {
            SupervisorState {
                handle: None,
                last_error: match error {
                    Some(text) => Some(text),
                    None => self.last_error,
                },
                ..self
            }
        } else {
            self
        }
    }
}

/// A start that fails says so in a message that holds the name of the
/// executable.
pub proof fn lemma_failed_start_names_program(
    record: SupervisorState,
    program: Seq<char>,
    outcome: SpawnOutcomeView,
)
    ensures
        record.spawn_result(program, outcome) matches StartOutcomeView::Failed(failure)
            ==> occurs_in(program, failure.text()),
{
    if let StartOutcomeView::Failed(failure) = record.spawn_result(program, outcome) {
        if let SidecarErrorView::SpawnFailure { stage, program: named, reason } = failure {
            lemma_spawn_failure_names_program(stage, named, reason);
        }
    }
}

/// The supervisor of one worker process.
#[derive(Debug)]
pub struct SidecarManager {
    handle: Option<WorkerHandle>,
    last_error: Option<String>,
    spawns: u64,
    timeout_ms: u64,
}

impl View for SidecarManager {
    type V = SupervisorState;

    closed spec fn view(&self) -> SupervisorState {
        SupervisorState {
            handle: match self.handle {
                Some(h) => Some(h.generation),
                None => None,
            },
            last_error: self.last_error.deep_view(),
            spawns: self.spawns,
            timeout_ms: self.timeout_ms,
        }
    }
}

impl SidecarManager {
    #[verifier::type_invariant]
    spec fn well_formed(&self) -> bool {
        self@.wf()
    }

    /// A supervisor with no worker, no error on record, and the default
    /// timeout for control requests.
    pub fn new() -> (manager: SidecarManager)
        ensures
            manager@ == SupervisorState::initial(),
            !manager@.is_running(),
            manager@.last_error is None,
            manager@.wf(),
    {
        SidecarManager { handle: None, last_error: None, spawns: 0, timeout_ms: DEFAULT_TIMEOUT_MS }
    }

    /// Whether a worker is alive.
    pub fn is_running(&self) -> (running: bool)
        ensures
            running == self@.is_running(),
            self@.wf(),
    {
        proof {
            use_type_invariant(self);
        }
        self.handle.is_some()
    }

    /// The message of the most recent failure, if any is on record.
    pub fn get_error(&self) -> (error: Option<String>)
        ensures
            error.deep_view() == self@.last_error,
    {
        match &self.last_error {
            Some(text) => Some(text.clone()),
            None => None,
        }
    }

    /// The live worker, if there is one.
    pub fn handle(&self) -> (handle: Option<WorkerHandle>)
        ensures
            handle == match self@.handle {
                Some(g) => Some(WorkerHandle { generation: g }),
                None => None,
            },
    {
        self.handle
    }

    /// How many spawns have succeeded so far.
    pub fn spawns(&self) -> (count: u64)
        ensures
            count == self@.spawns,
    {
        self.spawns
    }

    /// After how many milliseconds a control request is given up.
    pub fn timeout_ms(&self) -> (ms: u64)
        ensures
            ms == self@.timeout_ms,
    {
        self.timeout_ms
    }

    /// Sets the time after which a control request is given up.
    pub fn set_timeout_ms(&mut self, ms: u64)
        ensures
            final(self)@ == (SupervisorState { timeout_ms: ms, ..old(self)@ }),
            final(self)@.wf(),
    {
        proof {
            use_type_invariant(&*self);
        }
        self.timeout_ms = ms;
    }

    /// Begins a start. With a worker alive the start has succeeded and
    /// nothing changes. Else the last error is cleared and the caller is
    /// asked to spawn the worker under the configured name, or under the
    /// default name where none is configured, and to report the outcome to
    /// `spawn_finished`.
    pub fn start_sidecar(&mut self, configured_name: Option<String>) -> (step: StartStep)
        ensures
            step@ == old(self)@.start_step(configured_name.deep_view()),
            final(self)@ == old(self)@.after_start(configured_name.deep_view()),
            old(self)@.is_running() ==> step@ is AlreadyRunning && final(self)@ == old(self)@,
            step@ is AlreadyRunning <==> old(self)@.is_running(),
            step@ is Spawn <==> old(self)@.can_adopt(),
            step@ is Spawn ==> final(self)@.last_error is None,
            final(self)@.handle == old(self)@.handle,
            final(self)@.wf(),
    {
        proof {
            use_type_invariant(&*self);
        }
        if self.handle.is_some() {
            return StartStep::AlreadyRunning;
        }
        let command = worker_command(configured_name);
        if self.spawns == u64::MAX {
            let error = SidecarError::SpawnFailure {
                stage: SpawnStage::Launch,
                program: command.program,
                reason: String::from_str(NO_GENERATION_LEFT),
            };
            self.last_error = Some(error.message());
            return StartStep::Failed(error);
        }
        self.last_error = None;
        StartStep::Spawn(command)
    }

    /// Takes the report of the spawn that a start asked for, `program` being
    /// the executable of the command. A failure is recorded, with the name of
    /// the executable in its message, and returned. A launched process
    /// becomes the worker under a fresh generation, unless a worker is alive
    /// already or no generation is left.
    pub fn spawn_finished(&mut self, program: &str, outcome: SpawnOutcome) -> (result: StartOutcome)
        ensures
            result@ == old(self)@.spawn_result(program@, outcome@),
            final(self)@ == old(self)@.after_spawn(program@, outcome@),
            result@ is Started <==> outcome@ is Spawned && old(self)@.can_adopt(),
            result@ is Surplus <==> outcome@ is Spawned && old(self)@.is_running(),
            result@ is Started ==> final(self)@.is_running(),
            result@ is Surplus ==> final(self)@ == old(self)@,
            result@ is Failed ==> {
                &&& final(self)@.handle == old(self)@.handle
                &&& final(self)@.last_error is Some
                &&& occurs_in(program@, final(self)@.last_error->0)
            },
            final(self)@.wf(),
    {
        proof {
            use_type_invariant(&*self);
            lemma_failed_start_names_program(self@, program@, outcome@);
        }
        let failure = match outcome {
            SpawnOutcome::Spawned => {
                if self.handle.is_some() {
                    return StartOutcome::Surplus;
                }
                if self.spawns < u64::MAX {
                    let handle = WorkerHandle { generation: self.spawns + 1 };
                    self.spawns = handle.generation;
                    self.handle = Some(handle);
                    return StartOutcome::Started { handle, grace_ms: START_GRACE_MS };
                }
                SidecarError::SpawnFailure {
                    stage: SpawnStage::Launch,
                    program: String::from_str(program),
                    reason: String::from_str(NO_GENERATION_LEFT),
                }
            },
            SpawnOutcome::CommandRejected(reason) => SidecarError::SpawnFailure {
                stage: SpawnStage::Command,
                program: String::from_str(program),
                reason,
            },
            SpawnOutcome::LaunchFailed(reason) => SidecarError::SpawnFailure {
                stage: SpawnStage::Launch,
                program: String::from_str(program),
                reason,
            },
        };
        self.last_error = Some(failure.message());
        StartOutcome::Failed(failure)
    }

    /// Begins a stop. With no worker alive the stop has succeeded and
    /// nothing changes. Else the supervisor lets go of the worker at once and
    /// the caller is asked to terminate it and to report the outcome to
    /// `kill_finished`.
    pub fn stop_sidecar(&mut self) -> (step: StopStep)
        ensures
            step == old(self)@.stop_step(),
            final(self)@ == old(self)@.after_stop(),
            !old(self)@.is_running() ==> step == StopStep::NotRunning && final(self)@ == old(self)@,
            !final(self)@.is_running(),
            final(self)@.wf(),
    {
        proof {
            use_type_invariant(&*self);
        }
        let held = self.handle;
        self.handle = None;
        match held {
            Some(handle) => StopStep::Kill(handle),
            None => StopStep::NotRunning,
        }
    }

    /// Ends the supervisor. A worker that is alive must not outlive it: the
    /// caller is asked to terminate it, whatever the path on which the
    /// supervisor goes away.
    pub fn shutdown(self) -> (step: StopStep)
        ensures
            step == self@.stop_step(),
            step is Kill <==> self@.is_running(),
    {
        match self.handle {
            Some(handle) => StopStep::Kill(handle),
            None => StopStep::NotRunning,
        }
    }

    /// Takes the report of the termination that a stop asked for: `Ok`, or
    /// the reason why the worker could not be terminated. A failure is
    /// recorded and returned; the worker stays let go.
    pub fn kill_finished(&mut self, report: Result<(), String>) -> (result: Result<(), SidecarError>)
        ensures
            match report {
                Ok(_) => result is Ok && final(self)@ == old(self)@,
                Err(reason) => {
                    &&& result matches Err(error)
                    &&& error@ == (SidecarErrorView::KillFailure { reason: reason@ })
                    &&& final(self)@ == old(self)@.after_kill(Some(reason@))
                },
            },
            final(self)@.handle == old(self)@.handle,
            final(self)@.wf(),
    {
        proof {
            use_type_invariant(&*self);
        }
        match report {
            Ok(_) => Ok(()),
            Err(reason) => {
                let error = SidecarError::KillFailure { reason };
                self.last_error = Some(error.message());
                Err(error)
            },
        }
    }

    /// Takes note that the worker of generation `generation` is gone, with
    /// `error` as the failure to record, if it ended in one. Only the worker
    /// that is alive now can be gone: for any other generation this does
    /// nothing. Tells whether the worker was let go.
    pub fn worker_gone(&mut self, generation: u64, error: Option<SidecarError>) -> (released: bool)
        ensures
            released == (old(self)@.handle == Some(generation)),
            final(self)@ == old(self)@.after_exit(
                generation,
                match error {
                    Some(e) => Some(e@.text()),
                    None => None,
                },
            ),
            !released ==> final(self)@ == old(self)@,
            final(self)@.handle != Some(generation),
            final(self)@.wf(),
    {
        proof {
            use_type_invariant(&*self);
        }
        let current = match self.handle {
            Some(handle) => handle.generation == generation,
            None => false,
        };
        if current {
            self.handle = None;
            match error {
                Some(e) => {
                    self.last_error = Some(e.message());
                },
                None => {},
            }
        }
        current
    }
}

} // verus!
