//! The action-running rules: mapping a symbolic action reference to the
//! script that carries it out, the deterministic sandbox substitute for a
//! real run, folding captured process output into a structured result, and
//! the static content generator behind the approval gate.

use vstd::prelude::*;
use vstd::string::StringExecFns;

use crate::model::{OpenClawResult, OpenClawResultV};

verus! {

/// The draft content produced for content-producing agents. A static
/// generator: every call yields the same non-empty text.
pub open spec fn spec_trend_content() -> Seq<char> {
    "OpenClaw v2.0 is trending! New features include multi-modal agentic workflows and enhanced Tauri integration. #OpenClaw #AI"@
}

/// Produce draft content for a content-producing agent.
pub fn search_trends() -> (r: String)
    ensures
        r@ == spec_trend_content(),
        r@.len() > 0,
{
    let r = String::from_str(
        "OpenClaw v2.0 is trending! New features include multi-modal agentic workflows and enhanced Tauri integration. #OpenClaw #AI",
    );
    proof {
        reveal_strlit(
            "OpenClaw v2.0 is trending! New features include multi-modal agentic workflows and enhanced Tauri integration. #OpenClaw #AI",
        );
    }
    r
}

/// The script that carries out a symbolic action reference; references
/// outside the table are unknown and must fail, never run.
pub open spec fn spec_resolve_action(action: Seq<char>) -> Option<Seq<char>> {
    if action == "linkedin_post"@ {
        Some("linkedin_post.cjs"@)
    } else if action == "linkedin_comment"@ {
        Some("linkedin_comment.cjs"@)
    } else {
        None
    }
}

/// Look an action reference up in the table of known actions.
pub fn resolve_action(action: &String) -> (r: Option<String>)
    ensures
        r is Some <==> spec_resolve_action(action@) is Some,
        r matches Some(s) ==> Some(s@) == spec_resolve_action(action@),
{
    if action.eq(&String::from_str("linkedin_post")) {
        Some(String::from_str("linkedin_post.cjs"))
    } else if action.eq(&String::from_str("linkedin_comment")) {
        Some(String::from_str("linkedin_comment.cjs"))
    } else {
        None
    }
}

/// The deterministic result a sandbox run reports instead of touching the
/// outside world.
pub open spec fn spec_sandbox_result() -> OpenClawResultV {
    OpenClawResultV { success: true, output: "sandbox: simulated run completed"@, error: None }
}

/// Simulate a successful run without any external side effect.
pub fn sandbox_result() -> (r: OpenClawResult)
    ensures
        r@ == spec_sandbox_result(),
        r@.success,
{
    OpenClawResult {
        success: true,
        output: String::from_str("sandbox: simulated run completed"),
        error: None,
    }
}

/// The result reported for an action reference outside the known table.
pub open spec fn spec_unknown_action_result() -> OpenClawResultV {
    OpenClawResultV {
        success: false,
        output: Seq::<char>::empty(),
        error: Some("unknown action reference"@),
    }
}

/// Fold an unknown action reference into a failure result.
pub fn unknown_action_result() -> (r: OpenClawResult)
    ensures
        r@ == spec_unknown_action_result(),
        !r@.success,
{
    OpenClawResult {
        success: false,
        output: String::new(),
        error: Some(String::from_str("unknown action reference")),
    }
}

/// Fold the captured streams and exit status of a finished action process
/// into a structured result: the error text is present exactly when the
/// process wrote to its error stream.
pub fn fold_run_output(success: bool, stdout: String, stderr: String) -> (r: OpenClawResult)
    ensures
        r@.success == success,
        r@.output == stdout@,
        r@.error == if stderr@.len() == 0 {
            Option::<Seq<char>>::None
        } else {
            Some(stderr@)
        },
{
    let empty = stderr.as_str().is_empty();
    OpenClawResult {
        success,
        output: stdout,
        error: if empty {
            None
        } else {
            Some(stderr)
        },
    }
}

/// Fold a failure to start an action process (absent program, spawn error,
/// or a timeout imposed by the embedder) into a failure result carrying the
/// failure text.
pub fn spawn_failure_result(message: String) -> (r: OpenClawResult)
    ensures
        !r@.success,
        r@.output.len() == 0,
        r@.error == Some(message@),
{
    OpenClawResult { success: false, output: String::new(), error: Some(message) }
}

/// Combine the two captured streams of a finished process into the one
/// display string the audit trail and the command surface show.
pub fn combine_output(stdout: &str, stderr: &str) -> (r: String)
    ensures
        r@ == "STDOUT:\n"@ + stdout@ + "\nSTDERR:\n"@ + stderr@,
{
    let mut r = String::from_str("STDOUT:\n");
    r.append(stdout);
    r.append("\nSTDERR:\n");
    r.append(stderr);
    r
}

/// Which package manager installs the agent tooling: pnpm when present,
/// npm otherwise, with the matching install arguments.
pub fn install_plan(has_pnpm: bool) -> (r: (String, String))
    ensures
        has_pnpm ==> r.0@ == "pnpm"@ && r.1@ == "add"@,
        !has_pnpm ==> r.0@ == "npm"@ && r.1@ == "install"@,
{
    if has_pnpm {
        (String::from_str("pnpm"), String::from_str("add"))
    } else {
        (String::from_str("npm"), String::from_str("install"))
    }
}

} // verus!
