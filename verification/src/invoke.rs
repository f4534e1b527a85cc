use vstd::prelude::*;
use vstd::string::StringExecFns;
use vstd::utf8::decode_utf8;
use vstd::utf8::valid_utf8;

use crate::text::bytes_to_string;
use crate::text::utf8_error_text;

verus! {

/// One request to run the external worker: the program to start, the entry
/// argument (the worker's script or entry point), and the positional
/// arguments forwarded to it, in order.
pub struct InvocationRequest {
    pub executable_path: String,
    pub entry_argument: String,
    pub positional_args: Vec<String>,
}

impl InvocationRequest {
    /// Builds a request from its three parts, kept verbatim.
    pub fn new(
        executable_path: String,
        entry_argument: String,
        positional_args: Vec<String>,
    ) -> (r: Self)
        ensures
            r.executable_path == executable_path,
            r.entry_argument == entry_argument,
            r.positional_args == positional_args,
    {
        InvocationRequest { executable_path, entry_argument, positional_args }
    }

    /// The arguments handed to the spawned process, each one separate and in
    /// order: the entry argument first, then every positional argument.
    pub fn argv(&self) -> (r: Vec<String>)
        ensures
            r@ == seq![self.entry_argument] + self.positional_args@,
    {
        let mut r: Vec<String> = Vec::new();
        r.push(self.entry_argument.clone());
        let mut i: usize = 0;
        while i < self.positional_args.len()
            invariant
                i <= self.positional_args@.len(),
                r@ == (seq![self.entry_argument] + self.positional_args@).take(i + 1),
            decreases self.positional_args@.len() - i,
        {
            r.push(self.positional_args[i].clone());
            i = i + 1;
        }
        proof {
            assert(r@ =~= seq![self.entry_argument] + self.positional_args@);
        }
        r
    }
}

/// What one invocation produced: exactly one of `Success`, carrying the
/// worker's standard output decoded as text, or `Failure`, carrying one
/// message that describes what went wrong.
#[derive(Debug, PartialEq, Eq)]
pub enum InvocationResult {
    Success(String),
    Failure(String),
}

/// The mathematical model of an `InvocationResult`.
pub enum ResultModel {
    Success(Seq<char>),
    Failure(Seq<char>),
}

impl InvocationResult {
    /// Whether this result reports a successful invocation.
    pub fn is_success(&self) -> (b: bool)
        ensures
            b == (self@ is Success),
    {
        match self {
            InvocationResult::Success(_) => true,
            InvocationResult::Failure(_) => false,
        }
    }

    /// The text this result carries: the worker's output on success, the
    /// failure message otherwise.
    pub fn text(&self) -> (t: &String)
        ensures
            self@ is Success ==> self@ == ResultModel::Success(t@),
            self@ is Failure ==> self@ == ResultModel::Failure(t@),
    {
        match self {
            InvocationResult::Success(s) => s,
            InvocationResult::Failure(m) => m,
        }
    }
}

impl View for InvocationResult {
    type V = ResultModel;

    open spec fn view(&self) -> ResultModel {
        match self {
            InvocationResult::Success(s) => ResultModel::Success(s@),
            InvocationResult::Failure(m) => ResultModel::Failure(m@),
        }
    }
}

/// How one attempt to run the worker ended, as the platform reports it:
/// either the process could not be started at all, or it ran to completion
/// with an exit status and the two captured output streams.
pub enum ProcessOutcome {
    SpawnFailed(String),
    Exited { exit_ok: bool, stdout: Vec<u8>, stderr: Vec<u8> },
}

/// The mathematical model of a `ProcessOutcome`.
pub enum OutcomeModel {
    SpawnFailed(Seq<char>),
    Exited { exit_ok: bool, stdout: Seq<u8>, stderr: Seq<u8> },
}

impl View for ProcessOutcome {
    type V = OutcomeModel;

    open spec fn view(&self) -> OutcomeModel {
        match self {
            ProcessOutcome::SpawnFailed(m) => OutcomeModel::SpawnFailed(m@),
            ProcessOutcome::Exited { exit_ok, stdout, stderr } => OutcomeModel::Exited {
                exit_ok: *exit_ok,
                stdout: stdout@,
                stderr: stderr@,
            },
        }
    }
}

/// The prefix of every failure message that reports a nonzero exit.
pub open spec fn failure_prefix() -> Seq<char> {
    "Worker script failed: "@
}

/// The placeholder that stands in for standard error when its bytes are not
/// valid text.
pub open spec fn unknown_error_text() -> Seq<char> {
    "Unknown worker error"@
}

/// The diagnostic text taken from a captured standard-error stream: its
/// bytes decoded as text, or the fixed placeholder when they do not decode.
pub open spec fn stderr_text(stderr: Seq<u8>) -> Seq<char> {
    if valid_utf8(stderr) {
        decode_utf8(stderr)
    } else {
        unknown_error_text()
    }
}

/// The result owed for a process outcome: the model of the whole
/// exit-status-to-result mapping.
///
/// - A spawn failure becomes a failure carrying the platform's description.
/// - A zero exit becomes the decoded standard output, or a failure carrying
///   the decode error's text when the bytes are not valid text.
/// - A nonzero exit becomes a failure carrying the prefix
///   `"Worker script failed: "` followed by the standard-error text.
pub open spec fn result_of_outcome(o: OutcomeModel) -> ResultModel {
    match o {
        OutcomeModel::SpawnFailed(m) => ResultModel::Failure(m),
        OutcomeModel::Exited { exit_ok, stdout, stderr } => {
            if exit_ok {
                if valid_utf8(stdout) {
                    ResultModel::Success(decode_utf8(stdout))
                } else {
                    ResultModel::Failure(utf8_error_text(stdout))
                }
            } else {
                ResultModel::Failure(failure_prefix() + stderr_text(stderr))
            }
        },
    }
}

/// Maps what the platform reported about one run of the worker to the
/// result owed to the caller.
pub fn interpret_outcome(outcome: ProcessOutcome) -> (r: InvocationResult)
    ensures
        r@ == result_of_outcome(outcome@),
{
    match outcome {
        ProcessOutcome::SpawnFailed(m) => InvocationResult::Failure(m),
        ProcessOutcome::Exited { exit_ok, stdout, stderr } => {
            if exit_ok {
                match bytes_to_string(stdout) {
                    Ok(text) => InvocationResult::Success(text),
                    Err(message) => InvocationResult::Failure(message),
                }
            } else {
                let diagnostic = match bytes_to_string(stderr) {
                    Ok(text) => text,
                    Err(_) => String::from_str("Unknown worker error"),
                };
                let mut message = String::from_str("Worker script failed: ");
                message.append(diagnostic.as_str());
                InvocationResult::Failure(message)
            }
        },
    }
}

/// Law: a run that exits with status zero and prints valid text to standard
/// output yields exactly `Success` of that text.
pub proof fn lemma_success_is_exact_output(exit_ok: bool, stdout: Seq<u8>, stderr: Seq<u8>)
    requires
        exit_ok,
        valid_utf8(stdout),
    ensures
        result_of_outcome(OutcomeModel::Exited { exit_ok, stdout, stderr })
            == ResultModel::Success(decode_utf8(stdout)),
{
}

/// Law: a run that exits with a nonzero status yields a `Failure` whose
/// message is the literal prefix `"Worker script failed: "` followed by the
/// captured standard-error text.
pub proof fn lemma_failure_reports_stderr(exit_ok: bool, stdout: Seq<u8>, stderr: Seq<u8>)
    requires
        !exit_ok,
    ensures
        ({
            let r = result_of_outcome(OutcomeModel::Exited { exit_ok, stdout, stderr });
            &&& r matches ResultModel::Failure(m)
            &&& m.len() >= failure_prefix().len()
            &&& m.take(failure_prefix().len() as int) == failure_prefix()
            &&& m.skip(failure_prefix().len() as int) == stderr_text(stderr)
        }),
{
    let m = failure_prefix() + stderr_text(stderr);
    assert(m.take(failure_prefix().len() as int) =~= failure_prefix());
    assert(m.skip(failure_prefix().len() as int) =~= stderr_text(stderr));
}

/// Law: when the process cannot be started at all, the result is a `Failure`
/// carrying the platform's description of the spawn error.
pub proof fn lemma_spawn_failure_is_reported(description: Seq<char>)
    ensures
        result_of_outcome(OutcomeModel::SpawnFailed(description))
            == ResultModel::Failure(description),
{
}

/// Law: a run that exits with status zero but prints bytes that are not
/// valid text yields a `Failure` carrying the decode error's text, never a
/// `Success` with garbled output.
pub proof fn lemma_invalid_output_is_decode_failure(
    exit_ok: bool,
    stdout: Seq<u8>,
    stderr: Seq<u8>,
)
    requires
        exit_ok,
        !valid_utf8(stdout),
    ensures
        ({
            let r = result_of_outcome(OutcomeModel::Exited { exit_ok, stdout, stderr });
            &&& r == ResultModel::Failure(utf8_error_text(stdout))
            &&& r !is Success
        }),
{
}

} // verus!
