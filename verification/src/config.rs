//! The fixed facts about the worker: how it is invoked, where its control
//! surface listens, and the policy for starting it when the host starts.

use vstd::prelude::*;
use vstd::string::*;

verus! {

/// The executable that is started when the configuration names none.
pub const DEFAULT_SIDECAR_NAME: &'static str = "mix";

/// The configuration path that the worker is pointed at.
pub const WORKER_CONFIG_PATH: &'static str =
    "/Users/sarathmenon/Documents/startup/image_generation/mix";

/// The port of the worker's control surface, as it is written in the
/// argument vector and in the two endpoints.
pub const WORKER_HTTP_PORT: &'static str = "8088";

/// Where the worker answers health checks.
pub const HEALTH_URL: &'static str = "http://localhost:8088/api/health";

/// Where the worker takes prompts.
pub const PROMPT_URL: &'static str = "http://localhost:8088/api/prompt";

/// How long a start waits after a successful spawn before it reports
/// success, in milliseconds.
pub const START_GRACE_MS: u64 = 1000;

/// The time after which a control request is given up, in milliseconds,
/// unless the caller sets another.
pub const DEFAULT_TIMEOUT_MS: u64 = 30000;

/// An executable and its argument vector.
#[derive(Debug, PartialEq, Eq)]
pub struct SpawnCommand {
    pub program: String,
    pub args: Vec<String>,
}

/// A `SpawnCommand` as mathematical values.
pub struct SpawnCommandView {
    pub program: Seq<char>,
    pub args: Seq<Seq<char>>,
}

impl View for SpawnCommand {
    type V = SpawnCommandView;

    open spec fn view(&self) -> SpawnCommandView {
        SpawnCommandView { program: self.program@, args: self.args.deep_view() }
    }
}

/// The executable to start: the configured name, or the default when none
/// is configured.
pub open spec fn sidecar_name(configured: Option<Seq<char>>) -> Seq<char> {
    match configured {
        Some(name) => name,
        None => DEFAULT_SIDECAR_NAME@,
    }
}

/// The argument vector that every worker is started with: the configuration
/// path, the port of the control surface, and the operational flags.
pub open spec fn worker_args() -> Seq<Seq<char>> {
    seq![
        "-c"@,
        WORKER_CONFIG_PATH@,
        "--http-port"@,
        WORKER_HTTP_PORT@,
        "--dangerously-skip-permissions"@,
        "-d"@,
    ]
}

/// The command that starts the worker under the configured name.
pub open spec fn worker_command_view(configured: Option<Seq<char>>) -> SpawnCommandView {
    SpawnCommandView { program: sidecar_name(configured), args: worker_args() }
}

/// The executable to start, given the configured name if there is one.
pub fn resolve_sidecar_name(configured: Option<String>) -> (name: String)
    ensures
        name@ == sidecar_name(
            match configured {
                Some(n) => Some(n@),
                None => None,
            },
        ),
{
    match configured {
        Some(n) => n,
        None => String::from_str(DEFAULT_SIDECAR_NAME),
    }
}

/// The command that starts the worker, given the configured name if there
/// is one.
pub fn worker_command(configured: Option<String>) -> (command: SpawnCommand)
    ensures
        command@ == worker_command_view(
            match configured {
                Some(n) => Some(n@),
                None => None,
            },
        ),
{
    let program = resolve_sidecar_name(configured);
    let mut args: Vec<String> = Vec::new();
    args.push(String::from_str("-c"));
    args.push(String::from_str(WORKER_CONFIG_PATH));
    args.push(String::from_str("--http-port"));
    args.push(String::from_str(WORKER_HTTP_PORT));
    args.push(String::from_str("--dangerously-skip-permissions"));
    args.push(String::from_str("-d"));
    assert(args.deep_view() =~= worker_args());
    SpawnCommand { program, args }
}

/// The port in the argument vector is the port of both endpoints.
pub proof fn lemma_endpoints_use_worker_port()
    ensures
        worker_args()[3] == WORKER_HTTP_PORT@,
        HEALTH_URL@ == "http://localhost:"@ + WORKER_HTTP_PORT@ + "/api/health"@,
        PROMPT_URL@ == "http://localhost:"@ + WORKER_HTTP_PORT@ + "/api/prompt"@,
{
    reveal_strlit("8088");
    reveal_strlit("http://localhost:");
    reveal_strlit("/api/health");
    reveal_strlit("/api/prompt");
    reveal_strlit("http://localhost:8088/api/health");
    reveal_strlit("http://localhost:8088/api/prompt");
    assert(HEALTH_URL@ =~= "http://localhost:"@ + WORKER_HTTP_PORT@ + "/api/health"@);
    assert(PROMPT_URL@ =~= "http://localhost:"@ + WORKER_HTTP_PORT@ + "/api/prompt"@);
}

/// The text that `str::to_lowercase` gives for `text`.
pub uninterp spec fn lowercase(text: Seq<char>) -> Seq<char>;

/// `str::to_lowercase`.
///
/// Claimed of std: the lowercase form of a text depends on the text alone.
#[verifier::external_body]
fn to_lowercase(text: &str) -> (lower: String)
    ensures
        lower@ == lowercase(text@),
{
    text.to_lowercase()
}

/// The policy for starting the worker when the host starts, over the
/// lowercase form of the configured toggle: the worker is started unless a
/// toggle is set to something other than `true`.
pub open spec fn auto_start(lowered: Option<Seq<char>>) -> bool {
    match lowered {
        Some(word) => word == "true"@,
        None => true,
    }
}

/// Decides from the lowercase form of the configured toggle, if one is set,
/// whether the worker is started when the host starts.
pub fn auto_start_for(lowered: Option<String>) -> (enabled: bool)
    ensures
        enabled == auto_start(lowered.deep_view()),
{
    match lowered {
        Some(word) => word == String::from_str("true"),
        None => true,
    }
}

/// Decides from the configured toggle, if one is set, whether the worker is
/// started when the host starts: it is, unless the lowercase form of the
/// toggle is something other than `true`.
pub fn auto_start_enabled(toggle: Option<&str>) -> (enabled: bool)
    ensures
        enabled == auto_start(
            match toggle {
                Some(value) => Some(lowercase(value@)),
                None => None,
            },
        ),
{
    match toggle {
        Some(value) => auto_start_for(Some(to_lowercase(value))),
        None => auto_start_for(None),
    }
}

} // verus!
