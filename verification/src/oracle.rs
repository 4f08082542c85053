//! The oracle boundary: what the engine sends to the text-to-text knowledge
//! oracle, what can come back, and how a reply is read.

use crate::error::{Failure, FailureKind, FailureView};
use crate::json::{text_field, text_field_spec, text_lookup_view};
use crate::text::{signed_decimal, signed_decimal_text};
use vstd::prelude::*;
use vstd::string::*;

verus! {

/// Which pipeline consults the oracle.
#[derive(Debug, Clone, Copy, PartialEq, Eq, Structural)]
pub enum Purpose {
    Extraction,
    Compilation,
}

/// A request to the oracle: a fixed instruction preamble and a body delivered
/// on its input stream.
#[derive(Debug, Clone)]
pub struct OracleRequest {
    pub system_prompt: String,
    pub message: String,
}

pub ghost struct OracleRequestView {
    pub system_prompt: Seq<char>,
    pub message: Seq<char>,
}

impl View for OracleRequest {
    type V = OracleRequestView;

    open spec fn view(&self) -> OracleRequestView {
        OracleRequestView { system_prompt: self.system_prompt@, message: self.message@ }
    }
}

/// What the shell observed of one oracle call.
#[derive(Debug, Clone)]
pub enum OracleReply {
    /// The subprocess could not start.
    SpawnFailed { detail: String },
    /// The request could not be delivered on the subprocess's input stream.
    InputFailed { detail: String },
    /// Waiting for the subprocess failed.
    WaitFailed { detail: String },
    /// The subprocess ran to its end.
    Exited { success: bool, code: Option<i32>, stdout: String, stderr: String },
}

pub ghost enum OracleReplyView {
    SpawnFailed { detail: Seq<char> },
    InputFailed { detail: Seq<char> },
    WaitFailed { detail: Seq<char> },
    Exited { success: bool, code: Option<i32>, stdout: Seq<char>, stderr: Seq<char> },
}

impl View for OracleReply {
    type V = OracleReplyView;

    open spec fn view(&self) -> OracleReplyView {
        match *self {
            OracleReply::SpawnFailed { detail } => OracleReplyView::SpawnFailed { detail: detail@ },
            OracleReply::InputFailed { detail } => OracleReplyView::InputFailed { detail: detail@ },
            OracleReply::WaitFailed { detail } => OracleReplyView::WaitFailed { detail: detail@ },
            OracleReply::Exited { success, code, stdout, stderr } => OracleReplyView::Exited {
                success,
                code,
                stdout: stdout@,
                stderr: stderr@,
            },
        }
    }
}

/// Instruction preamble of an extraction request.
pub open spec fn extraction_prompt() -> Seq<char> {
    "You are extracting tacit knowledge and metis from an AI coding session.\n\nMetis is practical wisdom\u{2014}the know-how that comes from experience. Look for:\n- Decisions and their rationale\n- Constraints discovered through friction\n- Patterns in how work gets done\n- Facts about the codebase\n- Preferences implied by corrections\n\nAccumulate what you learn into the state document. Write naturally in markdown. Include timestamps for recency. Keep everything from the existing state and add what's new. Note conflicts when new info contradicts old."@
}

/// Instruction preamble of a compilation request.
pub open spec fn compilation_prompt() -> Seq<char> {
    "You are the working memory for an AI coding assistant.\n\nWorking memory holds what's relevant RIGHT NOW for the task at hand\u{2014}not everything known, just what helps with this specific intent.\n\nGiven accumulated knowledge and the user's current intent, surface what's relevant:\n- Decisions that apply to the task\n- Constraints that must be respected\n- Patterns that should be followed\n- Facts the assistant needs to know\n\nBe concise. Output only the relevant knowledge as markdown.\nIf nothing is relevant, output nothing."@
}

/// Intent sent where the caller has none.
pub open spec fn fallback_intent() -> Seq<char> {
    "general coding task"@
}

/// Body of an extraction request: the complete prior knowledge, then the
/// complete new transcript slice.
pub open spec fn extraction_message(current_state: Seq<char>, new_transcript: Seq<char>) -> Seq<
    char,
> {
    "CURRENT STATE:\n"@ + current_state + "\n\nNEW TRANSCRIPT:\n"@ + new_transcript
        + "\n\nOUTPUT:"@
}

/// Body of a compilation request: the complete knowledge, then the intent.
pub open spec fn compilation_message(state: Seq<char>, intent: Option<Seq<char>>) -> Seq<char> {
    "ACCUMULATED KNOWLEDGE:\n"@ + state + "\n\nUSER'S CURRENT INTENT:\n"@ + (match intent {
        Some(i) => i,
        None => fallback_intent(),
    }) + "\n\nRELEVANT KNOWLEDGE:"@
}

/// The request of an extraction.
pub open spec fn extraction_request_spec(
    current_state: Seq<char>,
    new_transcript: Seq<char>,
) -> OracleRequestView {
    OracleRequestView {
        system_prompt: extraction_prompt(),
        message: extraction_message(current_state, new_transcript),
    }
}

/// The request of a compilation.
pub open spec fn compilation_request_spec(
    state: Seq<char>,
    intent: Option<Seq<char>>,
) -> OracleRequestView {
    OracleRequestView {
        system_prompt: compilation_prompt(),
        message: compilation_message(state, intent),
    }
}

/// Builds the request that asks the oracle to fold a new transcript slice
/// into the prior knowledge.
pub fn extraction_request(current_state: &str, new_transcript: &str) -> (r: OracleRequest)
    ensures
        r@ == extraction_request_spec(current_state@, new_transcript@),
{
    let system_prompt = String::from_str(
        "You are extracting tacit knowledge and metis from an AI coding session.\n\nMetis is practical wisdom\u{2014}the know-how that comes from experience. Look for:\n- Decisions and their rationale\n- Constraints discovered through friction\n- Patterns in how work gets done\n- Facts about the codebase\n- Preferences implied by corrections\n\nAccumulate what you learn into the state document. Write naturally in markdown. Include timestamps for recency. Keep everything from the existing state and add what's new. Note conflicts when new info contradicts old.",
    );
    let message = String::from_str("CURRENT STATE:\n").concat(current_state).concat(
        "\n\nNEW TRANSCRIPT:\n",
    ).concat(new_transcript).concat("\n\nOUTPUT:");
    OracleRequest { system_prompt, message }
}

/// Builds the request that asks the oracle for the part of the knowledge that
/// bears on an intent. Without an intent the request names a generic one.
pub fn compilation_request(state: &str, intent: Option<&str>) -> (r: OracleRequest)
    ensures
        r@ == compilation_request_spec(
            state@,
            match intent {
                Some(i) => Some(i@),
                None => None,
            },
        ),
{
    let system_prompt = String::from_str(
        "You are the working memory for an AI coding assistant.\n\nWorking memory holds what's relevant RIGHT NOW for the task at hand\u{2014}not everything known, just what helps with this specific intent.\n\nGiven accumulated knowledge and the user's current intent, surface what's relevant:\n- Decisions that apply to the task\n- Constraints that must be respected\n- Patterns that should be followed\n- Facts the assistant needs to know\n\nBe concise. Output only the relevant knowledge as markdown.\nIf nothing is relevant, output nothing.",
    );
    let intent_text: &str = match intent {
        Some(i) => i,
        None => "general coding task",
    };
    let message = String::from_str("ACCUMULATED KNOWLEDGE:\n").concat(state).concat(
        "\n\nUSER'S CURRENT INTENT:\n",
    ).concat(intent_text).concat("\n\nRELEVANT KNOWLEDGE:");
    OracleRequest { system_prompt, message }
}

/// View of a text or a failure.
pub open spec fn text_result_view(r: Result<String, Failure>) -> Result<Seq<char>, FailureView> {
    match r {
        Ok(s) => Ok(s@),
        Err(f) => Err(f@),
    }
}

/// What the envelope lookup means for the caller: the text of the `result`
/// member, or a protocol failure where the envelope is malformed or has no
/// such string.
pub open spec fn result_from_envelope_spec(
    lookup: Result<Option<Seq<char>>, Seq<char>>,
) -> Result<Seq<char>, FailureView> {
    match lookup {
        Ok(Some(text)) => Ok(text),
        Ok(None) => Err(
            FailureView {
                kind: FailureKind::OracleProtocol,
                message: "Oracle response missing 'result' field"@,
            },
        ),
        Err(detail) => Err(
            FailureView {
                kind: FailureKind::OracleProtocol,
                message: "Failed to parse oracle response"@ + ": "@ + detail,
            },
        ),
    }
}

/// Turns the outcome of the envelope lookup into the oracle's answer or a
/// protocol failure.
pub fn result_from_envelope(lookup: Result<Option<String>, String>) -> (r: Result<String, Failure>)
    ensures
        text_result_view(r) == result_from_envelope_spec(text_lookup_view(lookup)),
{
    match lookup {
        Ok(Some(text)) => Ok(text),
        Ok(None) => Err(
            Failure {
                kind: FailureKind::OracleProtocol,
                message: String::from_str("Oracle response missing 'result' field"),
            },
        ),
        Err(detail) => Err(
            Failure::with_detail(
                FailureKind::OracleProtocol,
                "Failed to parse oracle response",
                detail.as_str(),
            ),
        ),
    }
}

/// The oracle's answer held by a response envelope.
pub open spec fn extract_result_field_spec(response: Seq<char>) -> Result<Seq<char>, FailureView> {
    result_from_envelope_spec(text_field_spec(response, "result"@))
}

/// Reads the oracle's answer out of its response envelope: the string member
/// `result` of a JSON object. Anything else is a protocol failure.
pub fn extract_result_field(response: &str) -> (r: Result<String, Failure>)
    ensures
        text_result_view(r) == extract_result_field_spec(response@),
{
    result_from_envelope(text_field(response, "result"))
}

/// How an exit code is shown in a failure message.
pub open spec fn exit_code_text(code: Option<i32>) -> Seq<char> {
    match code {
        Some(c) => "Some("@ + signed_decimal_text(c as int) + ")"@,
        None => "None"@,
    }
}

/// Message of an oracle run that ended with a failure status.
pub open spec fn execution_failure_message(
    purpose: Purpose,
    code: Option<i32>,
    stdout: Seq<char>,
    stderr: Seq<char>,
) -> Seq<char> {
    match purpose {
        Purpose::Extraction => "Oracle failed (exit "@ + exit_code_text(code)
            + "):\nstderr: "@ + stderr + "\nstdout: "@ + stdout,
        Purpose::Compilation => "Oracle failed: "@ + stderr,
    }
}

/// What a reply means: the oracle's answer, or the failure that kept it from
/// the engine.
pub open spec fn interpret_reply_spec(purpose: Purpose, reply: OracleReplyView) -> Result<
    Seq<char>,
    FailureView,
> {
    match reply {
        OracleReplyView::SpawnFailed { detail } => Err(
            FailureView {
                kind: FailureKind::OracleSpawn,
                message: "Failed to spawn oracle"@ + ": "@ + detail,
            },
        ),
        OracleReplyView::InputFailed { detail } => Err(
            FailureView {
                kind: FailureKind::Io,
                message: "Failed to write to stdin"@ + ": "@ + detail,
            },
        ),
        OracleReplyView::WaitFailed { detail } => Err(
            FailureView {
                kind: FailureKind::Io,
                message: "Failed to wait for oracle"@ + ": "@ + detail,
            },
        ),
        OracleReplyView::Exited { success, code, stdout, stderr } => if success {
            extract_result_field_spec(stdout)
        } else {
            Err(
                FailureView {
                    kind: FailureKind::OracleExecution,
                    message: execution_failure_message(purpose, code, stdout, stderr),
                },
            )
        },
    }
}

fn exit_code(code: Option<i32>) -> (s: String)
    ensures
        s@ == exit_code_text(code),
{
    match code {
        Some(c) => String::from_str("Some(").concat(signed_decimal(c as i64).as_str()).concat(")"),
        None => String::from_str("None"),
    }
}

/// Reads one reply of the oracle: its answer where the subprocess ran, exited
/// successfully and returned a well-formed envelope, and otherwise the
/// failure, by kind: spawn, transport, execution or protocol.
pub fn interpret_reply(purpose: Purpose, reply: &OracleReply) -> (r: Result<String, Failure>)
    ensures
        text_result_view(r) == interpret_reply_spec(purpose, reply@),
{
    match reply {
        OracleReply::SpawnFailed { detail } => Err(
            Failure::with_detail(
                FailureKind::OracleSpawn,
                "Failed to spawn oracle",
                detail.as_str(),
            ),
        ),
        OracleReply::InputFailed { detail } => Err(
            Failure::with_detail(FailureKind::Io, "Failed to write to stdin", detail.as_str()),
        ),
        OracleReply::WaitFailed { detail } => Err(
            Failure::with_detail(FailureKind::Io, "Failed to wait for oracle", detail.as_str()),
        ),
        OracleReply::Exited { success, code, stdout, stderr } => {
            if *success {
                extract_result_field(stdout.as_str())
            } else {
                let message = match purpose {
                    Purpose::Extraction => String::from_str("Oracle failed (exit ").concat(
                        exit_code(*code).as_str(),
                    ).concat("):\nstderr: ").concat(stderr.as_str()).concat("\nstdout: ").concat(
                        stdout.as_str(),
                    ),
                    Purpose::Compilation => String::from_str("Oracle failed: ").concat(
                        stderr.as_str(),
                    ),
                };
                Err(Failure { kind: FailureKind::OracleExecution, message })
            }
        },
    }
}

} // verus!
