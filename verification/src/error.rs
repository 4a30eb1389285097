//! What can go wrong, and the message that each failure is reported with.

use crate::http::{status_label, status_text};
use crate::text::{lemma_occurs_in_middle, occurs_in, push_signed_decimal, signed_decimal};
use vstd::prelude::*;
use vstd::string::*;

verus! {

/// The two requests of the control client.
#[derive(Clone, Copy, Debug, PartialEq, Eq, Structural)]
pub enum ControlOp {
    Health,
    Prompt,
}

/// The two steps at which a spawn can fail.
#[derive(Clone, Copy, Debug, PartialEq, Eq, Structural)]
pub enum SpawnStage {
    /// The command for the executable could not be made.
    Command,
    /// The command was made but the process did not launch.
    Launch,
}

/// A failure of the supervisor or of the control client.
#[derive(Debug, PartialEq, Eq)]
pub enum SidecarError {
    /// The worker's executable is missing or cannot be launched.
    SpawnFailure { stage: SpawnStage, program: String, reason: String },
    /// The transport to the running worker failed.
    SpawnIo { message: String },
    /// The worker ended with an exit code other than zero, or with none.
    AbnormalExit { code: Option<i32> },
    /// The worker did not take the request to terminate.
    KillFailure { reason: String },
    /// A control request was made while no worker is running.
    NotRunning,
    /// The request did not reach the worker.
    Network { op: ControlOp, reason: String },
    /// The worker answered with a status other than success.
    Protocol { op: ControlOp, status: u16 },
    /// The worker answered with success but its body could not be read or
    /// understood.
    Decode { op: ControlOp, reason: String },
}

/// A `SidecarError` as mathematical values.
pub enum SidecarErrorView {
    SpawnFailure { stage: SpawnStage, program: Seq<char>, reason: Seq<char> },
    SpawnIo { message: Seq<char> },
    AbnormalExit { code: Option<i32> },
    KillFailure { reason: Seq<char> },
    NotRunning,
    Network { op: ControlOp, reason: Seq<char> },
    Protocol { op: ControlOp, status: u16 },
    Decode { op: ControlOp, reason: Seq<char> },
}

impl View for SidecarError {
    type V = SidecarErrorView;

    open spec fn view(&self) -> SidecarErrorView {
        match self {
            SidecarError::SpawnFailure { stage, program, reason } => SidecarErrorView::SpawnFailure {
                stage: *stage,
                program: program@,
                reason: reason@,
            },
            SidecarError::SpawnIo { message } => SidecarErrorView::SpawnIo { message: message@ },
            SidecarError::AbnormalExit { code } => SidecarErrorView::AbnormalExit { code: *code },
            SidecarError::KillFailure { reason } => SidecarErrorView::KillFailure {
                reason: reason@,
            },
            SidecarError::NotRunning => SidecarErrorView::NotRunning,
            SidecarError::Network { op, reason } => SidecarErrorView::Network {
                op: *op,
                reason: reason@,
            },
            SidecarError::Protocol { op, status } => SidecarErrorView::Protocol {
                op: *op,
                status: *status,
            },
            SidecarError::Decode { op, reason } => SidecarErrorView::Decode {
                op: *op,
                reason: reason@,
            },
        }
    }
}

/// How an exit code is written in a message: `None`, or the number inside
/// `Some(..)`.
pub open spec fn exit_code_text(code: Option<i32>) -> Seq<char> {
    match code {
        Some(c) => "Some("@ + signed_decimal(c as int) + ")"@,
        None => "None"@,
    }
}

/// The message of a spawn failure. It names the executable.
pub open spec fn spawn_failure_text(stage: SpawnStage, program: Seq<char>, reason: Seq<char>) -> Seq<
    char,
> {
    match stage {
        SpawnStage::Command => "Failed to create sidecar command '"@ + program + "': "@ + reason,
        SpawnStage::Launch => "Failed to spawn sidecar '"@ + program + "': "@ + reason,
    }
}

/// The message of a failure of the transport to the running worker.
pub open spec fn spawn_io_text(message: Seq<char>) -> Seq<char> {
    "Process error: "@ + message
}

/// The message of an exit with a code other than zero, or with none.
pub open spec fn abnormal_exit_text(code: Option<i32>) -> Seq<char> {
    "Process terminated with code: "@ + exit_code_text(code)
}

/// The message of a failed request to terminate.
pub open spec fn kill_failure_text(reason: Seq<char>) -> Seq<char> {
    "Failed to kill sidecar process: "@ + reason
}

impl SidecarErrorView {
    /// The message that this failure is reported with.
    pub open spec fn text(self) -> Seq<char> {
        match self {
            SidecarErrorView::SpawnFailure { stage, program, reason } => spawn_failure_text(
                stage,
                program,
                reason,
            ),
            SidecarErrorView::SpawnIo { message } => spawn_io_text(message),
            SidecarErrorView::AbnormalExit { code } => abnormal_exit_text(code),
            SidecarErrorView::KillFailure { reason } => kill_failure_text(reason),
            SidecarErrorView::NotRunning => "Sidecar is not running"@,
            SidecarErrorView::Network { op, reason } => match op {
                ControlOp::Health => "Health check request failed: "@ + reason,
                ControlOp::Prompt => "Request failed: "@ + reason,
            },
            SidecarErrorView::Protocol { op, status } => match op {
                ControlOp::Health => "Health check failed with status: "@ + status_text(status),
                ControlOp::Prompt => "Request failed with status: "@ + status_text(status),
            },
            SidecarErrorView::Decode { op, reason } => match op {
                ControlOp::Health => "Failed to parse response: "@ + reason,
                ControlOp::Prompt => "Failed to read response: "@ + reason,
            },
        }
    }
}

/// The message of a spawn failure holds the name of the executable.
pub proof fn lemma_spawn_failure_names_program(
    stage: SpawnStage,
    program: Seq<char>,
    reason: Seq<char>,
)
    ensures
        occurs_in(program, spawn_failure_text(stage, program, reason)),
{
    let lead = match stage {
        SpawnStage::Command => "Failed to create sidecar command '"@,
        SpawnStage::Launch => "Failed to spawn sidecar '"@,
    };
    lemma_occurs_in_middle(lead, program, "': "@ + reason);
    assert(lead + program + ("': "@ + reason) =~= spawn_failure_text(stage, program, reason));
}

/// The message of an exit with a code holds the number of the code.
pub proof fn lemma_exit_message_holds_code(code: i32)
    ensures
        occurs_in(signed_decimal(code as int), abnormal_exit_text(Some(code))),
{
    lemma_occurs_in_middle(
        "Process terminated with code: "@ + "Some("@,
        signed_decimal(code as int),
        ")"@,
    );
    assert("Process terminated with code: "@ + "Some("@ + signed_decimal(code as int) + ")"@
        =~= abnormal_exit_text(Some(code)));
}

/// A lead text followed by a tail.
fn with_tail(lead: &str, tail: &str) -> (s: String)
    ensures
        s@ == lead@ + tail@,
{
    let mut s = String::from_str(lead);
    s.append(tail);
    s
}

impl SidecarError {
    /// The message that this failure is reported with.
    pub fn message(&self) -> (s: String)
        ensures
            s@ == self@.text(),
    {
        match self {
            SidecarError::SpawnFailure { stage, program, reason } => {
                let mut s = match stage {
                    SpawnStage::Command => String::from_str("Failed to create sidecar command '"),
                    SpawnStage::Launch => String::from_str("Failed to spawn sidecar '"),
                };
                s.append(program.as_str());
                s.append("': ");
                s.append(reason.as_str());
                s
            },
            SidecarError::SpawnIo { message } => with_tail("Process error: ", message.as_str()),
            SidecarError::AbnormalExit { code } => {
                let mut s = String::from_str("Process terminated with code: ");
                match code {
                    Some(c) => {
                        s.append("Some(");
                        push_signed_decimal(&mut s, *c);
                        s.append(")");
                        assert(s@ =~= self@.text());
                    },
                    None => {
                        s.append("None");
                    },
                }
                s
            },
            SidecarError::KillFailure { reason } => with_tail(
                "Failed to kill sidecar process: ",
                reason.as_str(),
            ),
            SidecarError::NotRunning => String::from_str("Sidecar is not running"),
            SidecarError::Network { op, reason } => match op {
                ControlOp::Health => with_tail("Health check request failed: ", reason.as_str()),
                ControlOp::Prompt => with_tail("Request failed: ", reason.as_str()),
            },
            SidecarError::Protocol { op, status } => {
                let label = status_label(*status);
                match op {
                    ControlOp::Health => with_tail(
                        "Health check failed with status: ",
                        label.as_str(),
                    ),
                    ControlOp::Prompt => with_tail("Request failed with status: ", label.as_str()),
                }
            },
            SidecarError::Decode { op, reason } => match op {
                ControlOp::Health => with_tail("Failed to parse response: ", reason.as_str()),
                ControlOp::Prompt => with_tail("Failed to read response: ", reason.as_str()),
            },
        }
    }
}

} // verus!
