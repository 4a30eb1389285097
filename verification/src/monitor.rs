//! The event monitor: the consumer of one worker's event stream. It is bound
//! to the generation of the worker it was made for, passes output on, and on
//! the first event that ends the worker updates the supervisor's record and
//! stops for good.

use crate::error::{SidecarError, SidecarErrorView};
use crate::supervisor::{SidecarManager, SupervisorState, WorkerHandle};
use vstd::prelude::*;

verus! {

/// The two output streams of the worker.
#[derive(Clone, Copy, Debug, PartialEq, Eq, Structural)]
pub enum OutputStream {
    Stdout,
    Stderr,
}

impl OutputStream {
    /// The name under which the stream is logged.
    pub fn name(self) -> (name: &'static str)
        ensures
            name@ == match self {
                OutputStream::Stdout => "stdout"@,
                OutputStream::Stderr => "stderr"@,
            },
    {
        match self {
            OutputStream::Stdout => "stdout",
            OutputStream::Stderr => "stderr",
        }
    }
}

/// One event of a worker's stream.
#[derive(Debug, PartialEq, Eq)]
pub enum WorkerEvent {
    /// The worker wrote `bytes` to `stream`.
    Output { stream: OutputStream, bytes: Vec<u8> },
    /// The transport to the worker failed; the text says how.
    SpawnIoError(String),
    /// The worker ended, with this exit code if it left one.
    Terminated(Option<i32>),
    /// Any other event of the transport.
    Other,
}

/// A `WorkerEvent` as mathematical values.
pub enum WorkerEventView {
    Output { stream: OutputStream, bytes: Seq<u8> },
    SpawnIoError(Seq<char>),
    Terminated(Option<i32>),
    Other,
}

impl View for WorkerEvent {
    type V = WorkerEventView;

    open spec fn view(&self) -> WorkerEventView {
        match self {
            WorkerEvent::Output { stream, bytes } => WorkerEventView::Output {
                stream: *stream,
                bytes: bytes@,
            },
            WorkerEvent::SpawnIoError(message) => WorkerEventView::SpawnIoError(message@),
            WorkerEvent::Terminated(code) => WorkerEventView::Terminated(*code),
            WorkerEvent::Other => WorkerEventView::Other,
        }
    }
}

impl WorkerEventView {
    /// The event ends the worker.
    pub open spec fn is_terminal(self) -> bool {
        self is SpawnIoError || self is Terminated
    }

    /// The failure that the event puts on record: none for output, for other
    /// events and for an exit with code zero.
    pub open spec fn failure(self) -> Option<SidecarErrorView> {
        match self {
            WorkerEventView::SpawnIoError(message) => Some(
                SidecarErrorView::SpawnIo { message },
            ),
            WorkerEventView::Terminated(code) => if code == Some(0i32) {
                None
            } else {
                Some(SidecarErrorView::AbnormalExit { code })
            },
            _ => None,
        }
    }

    /// The message of the failure that the event puts on record, if any.
    pub open spec fn failure_text(self) -> Option<Seq<char>> {
        match self.failure() {
            Some(failure) => Some(failure.text()),
            None => None,
        }
    }
}

/// What the monitor asks of its caller after an event.
#[derive(Debug, PartialEq, Eq)]
pub enum MonitorAction {
    /// Hand these bytes of this stream to the logging sink, as they are, and
    /// go on.
    Forward { stream: OutputStream, bytes: Vec<u8> },
    /// Nothing to do; go on.
    Continue,
    /// The monitor is done: stop reading events. With `released` the
    /// supervisor has just let go of the monitor's worker, and the caller
    /// lets go of the process as well.
    Finished { released: bool },
}

/// A `MonitorAction` as mathematical values.
pub enum MonitorActionView {
    Forward { stream: OutputStream, bytes: Seq<u8> },
    Continue,
    Finished { released: bool },
}

impl View for MonitorAction {
    type V = MonitorActionView;

    open spec fn view(&self) -> MonitorActionView {
        match self {
            MonitorAction::Forward { stream, bytes } => MonitorActionView::Forward {
                stream: *stream,
                bytes: bytes@,
            },
            MonitorAction::Continue => MonitorActionView::Continue,
            MonitorAction::Finished { released } => MonitorActionView::Finished {
                released: *released,
            },
        }
    }
}

/// The monitor as mathematical values.
pub struct MonitorState {
    /// The generation of the worker that the monitor was made for.
    pub generation: u64,
    /// The monitor has seen the event that ended its worker.
    pub terminal: bool,
}

impl MonitorState {
    /// The monitor's own worker is the live one, and `event` is the first
    /// that ends it: the supervisor lets go of the worker.
    pub open spec fn releases(self, record: SupervisorState, event: WorkerEventView) -> bool {
        !self.terminal && event.is_terminal() && record.handle == Some(self.generation)
    }

    /// What the monitor asks of its caller after `event`, with `record` as
    /// the supervisor's record before the event.
    pub open spec fn action(self, record: SupervisorState, event: WorkerEventView)
        -> MonitorActionView {
        if self.terminal || event.is_terminal() {
            MonitorActionView::Finished { released: self.releases(record, event) }
        } else {
            match event {
                WorkerEventView::Output { stream, bytes } => MonitorActionView::Forward {
                    stream,
                    bytes,
                },
                _ => MonitorActionView::Continue,
            }
        }
    }

    /// The monitor after `event`: done from the first event that ends the
    /// worker.
    pub open spec fn after(self, event: WorkerEventView) -> MonitorState {
        MonitorState { terminal: self.terminal || event.is_terminal(), ..self }
    }

    /// The supervisor's record after the monitor has taken `event`. Only an
    /// event that ends the worker, taken by a monitor that is not done,
    /// touches the record, and then only if the live worker is still the one
    /// that the monitor was made for.
    pub open spec fn record_after(self, record: SupervisorState, event: WorkerEventView)
        -> SupervisorState {
        if !self.terminal && event.is_terminal() {
            record.after_exit(self.generation, event.failure_text())
        } else {
            record
        }
    }

    /// The monitor after a whole stream of events.
    pub open spec fn after_all(self, events: Seq<WorkerEventView>) -> MonitorState
        decreases events.len(),
    {
        if events.len() == 0 {
            self
        } else {
            self.after(events.first()).after_all(events.drop_first())
        }
    }

    /// The supervisor's record after the monitor has taken a whole stream of
    /// events, with nobody else touching the record meanwhile.
    pub open spec fn record_after_all(self, record: SupervisorState, events: Seq<WorkerEventView>)
        -> SupervisorState
        decreases events.len(),
    {
        if events.len() == 0 {
            record
        } else {
            self.after(events.first()).record_after_all(
                self.record_after(record, events.first()),
                events.drop_first(),
            )
        }
    }
}

/// The failure that an exit with `code` puts on record: none for code zero.
pub fn exit_failure(code: Option<i32>) -> (failure: Option<SidecarError>)
    ensures
        WorkerEventView::Terminated(code).failure() == match failure {
            Some(e) => Some(e@),
            None => None,
        },
{
    match code {
        Some(0) => None,
        _ => Some(SidecarError::AbnormalExit { code }),
    }
}

/// The consumer of the event stream of one worker.
#[derive(Debug)]
pub struct EventMonitor {
    generation: u64,
    terminal: bool,
}

impl View for EventMonitor {
    type V = MonitorState;

    closed spec fn view(&self) -> MonitorState {
        MonitorState { generation: self.generation, terminal: self.terminal }
    }
}

impl EventMonitor {
    /// A monitor for the worker `handle`, ready for its first event.
    pub fn new(handle: WorkerHandle) -> (monitor: EventMonitor)
        ensures
            monitor@ == (MonitorState { generation: handle.generation, terminal: false }),
    {
        EventMonitor { generation: handle.generation, terminal: false }
    }

    /// The generation of the worker that the monitor was made for.
    pub fn generation(&self) -> (generation: u64)
        ensures
            generation == self@.generation,
    {
        self.generation
    }

    /// Whether the monitor has seen the event that ended its worker.
    pub fn is_terminal(&self) -> (terminal: bool)
        ensures
            terminal == self@.terminal,
    {
        self.terminal
    }

    /// Takes one event of the stream. Output is passed on as it is. The
    /// first event that ends the worker is written into `manager`'s record,
    /// provided that the live worker is still the monitor's own, and ends the
    /// monitor: a transport failure and an exit with a code other than zero,
    /// or with none, are recorded as the last error; an exit with code zero
    /// leaves the last error as it is. Once the monitor is done, events
    /// change nothing.
    pub fn handle_event(
        &mut self,
        manager: &mut SidecarManager,
        event: WorkerEvent,
    ) -> (action: MonitorAction)
        ensures
            action@ == old(self)@.action(old(manager)@, event@),
            final(self)@ == old(self)@.after(event@),
            final(manager)@ == old(self)@.record_after(old(manager)@, event@),
            !old(self)@.releases(old(manager)@, event@) ==> final(manager)@ == old(manager)@,
    {
        if self.terminal {
            return MonitorAction::Finished { released: false };
        }
        match event {
            WorkerEvent::Output { stream, bytes } => MonitorAction::Forward { stream, bytes },
            WorkerEvent::SpawnIoError(message) => {
                self.terminal = true;
                let released = manager.worker_gone(
                    self.generation,
                    Some(SidecarError::SpawnIo { message }),
                );
                MonitorAction::Finished { released }
            },
            WorkerEvent::Terminated(code) => {
                self.terminal = true;
                let released = manager.worker_gone(self.generation, exit_failure(code));
                MonitorAction::Finished { released }
            },
            WorkerEvent::Other => MonitorAction::Continue,
        }
    }
}

} // verus!
