//! The control client: the health check and the prompt request. Each is
//! let through only while a worker is alive, is sent once, and its reply is
//! read into a result or a failure.

use crate::config::{HEALTH_URL, PROMPT_URL};
use crate::error::{ControlOp, SidecarError, SidecarErrorView};
use crate::http::{
    is_success, status_is_success, HttpMethod, HttpOutcome, HttpRequest, HttpRequestView,
};
use crate::json::{json_object_of_member, json_text_member, read_text_member, write_text_member};
use crate::supervisor::{SidecarManager, SupervisorState};
use vstd::prelude::*;
use vstd::string::*;

verus! {

/// The member of the health document that holds the worker's status.
pub const HEALTH_STATUS_KEY: &'static str = "status";

/// The member of the prompt document that holds the prompt.
pub const PROMPT_KEY: &'static str = "prompt";

/// What a control request gives back, as mathematical values: the text of
/// the answer, or the failure.
pub open spec fn reply_view(reply: Result<String, SidecarError>) -> Result<
    Seq<char>,
    SidecarErrorView,
> {
    match reply {
        Ok(text) => Ok(text@),
        Err(error) => Err(error@),
    }
}

/// What the first step of a control request gives back, as mathematical
/// values: the request to send, or the failure.
pub open spec fn request_view(request: Result<HttpRequest, SidecarError>) -> Result<
    HttpRequestView,
    SidecarErrorView,
> {
    match request {
        Ok(r) => Ok(r@),
        Err(error) => Err(error@),
    }
}

/// The health check as a request: a GET to the health endpoint.
pub open spec fn health_request(timeout_ms: u64) -> HttpRequestView {
    HttpRequestView { method: HttpMethod::Get, url: HEALTH_URL@, json_body: None, timeout_ms }
}

/// A prompt as a request: a POST of `body` to the prompt endpoint.
pub open spec fn prompt_request(body: Seq<u8>, timeout_ms: u64) -> HttpRequestView {
    HttpRequestView {
        method: HttpMethod::Post,
        url: PROMPT_URL@,
        json_body: Some(body),
        timeout_ms,
    }
}

/// What a health check answers when its body was read as `member`, the
/// outcome of looking for the status member: the status inside a sentence,
/// a plain sentence where the document has no such text, and a failure where
/// the body is no JSON.
pub open spec fn health_answer(member: Result<Option<Seq<char>>, Seq<char>>) -> Result<
    Seq<char>,
    SidecarErrorView,
> {
    match member {
        Ok(Some(status)) => Ok("Mix health check: "@ + status),
        Ok(None) => Ok("Mix health check successful"@),
        Err(reason) => Err(SidecarErrorView::Decode { op: ControlOp::Health, reason }),
    }
}

/// What a health check gives back for `outcome`.
pub open spec fn health_result(outcome: HttpOutcome<Vec<u8>>) -> Result<
    Seq<char>,
    SidecarErrorView,
> {
    match outcome {
        HttpOutcome::Unreachable(reason) => Err(
            SidecarErrorView::Network { op: ControlOp::Health, reason: reason@ },
        ),
        HttpOutcome::Replied { status, body } => if !is_success(status) {
            Err(SidecarErrorView::Protocol { op: ControlOp::Health, status })
        } else {
            match body {
                Ok(bytes) => health_answer(json_text_member(bytes@, HEALTH_STATUS_KEY@)),
                Err(reason) => Err(
                    SidecarErrorView::Decode { op: ControlOp::Health, reason: reason@ },
                ),
            }
        },
    }
}

/// What a prompt request gives back for `outcome`: on success the text of
/// the body, as it came.
pub open spec fn prompt_result(outcome: HttpOutcome<String>) -> Result<
    Seq<char>,
    SidecarErrorView,
> {
    match outcome {
        HttpOutcome::Unreachable(reason) => Err(
            SidecarErrorView::Network { op: ControlOp::Prompt, reason: reason@ },
        ),
        HttpOutcome::Replied { status, body } => if !is_success(status) {
            Err(SidecarErrorView::Protocol { op: ControlOp::Prompt, status })
        } else {
            match body {
                Ok(text) => Ok(text@),
                Err(reason) => Err(
                    SidecarErrorView::Decode { op: ControlOp::Prompt, reason: reason@ },
                ),
            }
        },
    }
}

/// The request for a prompt whose document was written as `encoded`: the
/// POST of the document, or the failure to write it.
pub open spec fn prompt_request_of(encoded: Result<Seq<u8>, Seq<char>>, timeout_ms: u64) -> Result<
    HttpRequestView,
    SidecarErrorView,
> {
    match encoded {
        Ok(body) => Ok(prompt_request(body, timeout_ms)),
        Err(reason) => Err(SidecarErrorView::Network { op: ControlOp::Prompt, reason }),
    }
}

impl SupervisorState {
    /// What the first step of a health check gives back: the request while
    /// a worker is alive, else the failure, with nothing to send.
    pub open spec fn health_check(self) -> Result<HttpRequestView, SidecarErrorView> {
        if self.is_running() {
            Ok(health_request(self.timeout_ms))
        } else {
            Err(SidecarErrorView::NotRunning)
        }
    }

    /// What the first step of a prompt request gives back: the request while
    /// a worker is alive, else the failure, with nothing to send.
    pub open spec fn send_prompt(self, prompt: Seq<char>) -> Result<
        HttpRequestView,
        SidecarErrorView,
    > {
        if self.is_running() {
            prompt_request_of(json_object_of_member(PROMPT_KEY@, prompt), self.timeout_ms)
        } else {
            Err(SidecarErrorView::NotRunning)
        }
    }
}

/// Turns what was found of the status member in a health check's body into
/// the answer of the health check.
pub fn health_verdict(member: Result<Option<String>, String>) -> (reply: Result<
    String,
    SidecarError,
>)
    ensures
        reply_view(reply) == health_answer(
            match member {
                Ok(Some(status)) => Ok(Some(status@)),
                Ok(None) => Ok(None),
                Err(reason) => Err(reason@),
            },
        ),
{
    match member {
        Ok(Some(status)) => {
            let mut text = String::from_str("Mix health check: ");
            text.append(status.as_str());
            Ok(text)
        },
        Ok(None) => Ok(String::from_str("Mix health check successful")),
        Err(reason) => Err(SidecarError::Decode { op: ControlOp::Health, reason }),
    }
}

/// Reads the outcome of a health check. A transport failure, a status other
/// than success and a body that cannot be read or is no JSON are failures.
/// Else the answer names the worker's status where the document gives one.
pub fn health_reply(outcome: HttpOutcome<Vec<u8>>) -> (reply: Result<String, SidecarError>)
    ensures
        reply_view(reply) == health_result(outcome),
{
    match outcome {
        HttpOutcome::Unreachable(reason) => Err(
            SidecarError::Network { op: ControlOp::Health, reason },
        ),
        HttpOutcome::Replied { status, body } => {
            if !status_is_success(status) {
                return Err(SidecarError::Protocol { op: ControlOp::Health, status });
            }
            match body {
                Ok(bytes) => health_verdict(read_text_member(bytes.as_slice(), HEALTH_STATUS_KEY)),
                Err(reason) => Err(SidecarError::Decode { op: ControlOp::Health, reason }),
            }
        },
    }
}

/// Reads the outcome of a prompt request. A transport failure, a status
/// other than success and a body that cannot be read are failures. Else the
/// answer is the text of the body, as it came.
pub fn prompt_reply(outcome: HttpOutcome<String>) -> (reply: Result<String, SidecarError>)
    ensures
        reply_view(reply) == prompt_result(outcome),
{
    match outcome {
        HttpOutcome::Unreachable(reason) => Err(
            SidecarError::Network { op: ControlOp::Prompt, reason },
        ),
        HttpOutcome::Replied { status, body } => {
            if !status_is_success(status) {
                return Err(SidecarError::Protocol { op: ControlOp::Prompt, status });
            }
            match body {
                Ok(text) => Ok(text),
                Err(reason) => Err(SidecarError::Decode { op: ControlOp::Prompt, reason }),
            }
        },
    }
}

/// Makes the request for a prompt out of its written document, or the
/// failure where the document could not be written.
pub fn prompt_request_for(encoded: Result<Vec<u8>, String>, timeout_ms: u64) -> (request: Result<
    HttpRequest,
    SidecarError,
>)
    ensures
        request_view(request) == prompt_request_of(
            match encoded {
                Ok(body) => Ok(body@),
                Err(reason) => Err(reason@),
            },
            timeout_ms,
        ),
{
    match encoded {
        Ok(body) => Ok(
            HttpRequest {
                method: HttpMethod::Post,
                url: String::from_str(PROMPT_URL),
                json_body: Some(body),
                timeout_ms,
            },
        ),
        Err(reason) => Err(SidecarError::Network { op: ControlOp::Prompt, reason }),
    }
}

impl SidecarManager {
    /// The first step of a health check. With no worker alive it fails at
    /// once, and there is no request to send. Else it hands out the request,
    /// to be sent once; what comes back goes to `health_reply`.
    pub fn health_check(&self) -> (request: Result<HttpRequest, SidecarError>)
        ensures
            request_view(request) == self@.health_check(),
            request is Ok <==> self@.is_running(),
            !self@.is_running() ==> request_view(request) == Err::<HttpRequestView, _>(
                SidecarErrorView::NotRunning,
            ),
    {
        if !self.is_running() {
            return Err(SidecarError::NotRunning);
        }
        Ok(
            HttpRequest {
                method: HttpMethod::Get,
                url: String::from_str(HEALTH_URL),
                json_body: None,
                timeout_ms: self.timeout_ms(),
            },
        )
    }

    /// The first step of a prompt request. With no worker alive it fails at
    /// once, and there is no request to send. Else it hands out the request,
    /// with the prompt as the one member of a JSON document, to be sent once;
    /// what comes back goes to `prompt_reply`.
    pub fn send_prompt(&self, prompt: &str) -> (request: Result<HttpRequest, SidecarError>)
        ensures
            request_view(request) == self@.send_prompt(prompt@),
            request is Ok <==> self@.is_running() && json_object_of_member(PROMPT_KEY@, prompt@)
                is Ok,
            !self@.is_running() ==> request_view(request) == Err::<HttpRequestView, _>(
                SidecarErrorView::NotRunning,
            ),
    {
        if !self.is_running() {
            return Err(SidecarError::NotRunning);
        }
        prompt_request_for(write_text_member(PROMPT_KEY, prompt), self.timeout_ms())
    }
}

} // verus!
