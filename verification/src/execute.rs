//! Results of running a command in the guest, and how they are put together
//! from what the engine hands back.

use std::sync::Arc;
use vstd::prelude::*;
use vstd::string::*;
use crate::callbacks::FsCallbacks;
use crate::proxy::ProxyFileSystem;

verus! {

/// What running a command produced.
#[derive(Debug, Clone)]
pub struct ExecuteResult {
    pub output: String,
    pub exit_code: i32,
    pub truncated: bool,
}

/// The mathematical value of an [`ExecuteResult`].
pub struct ExecuteResultView {
    pub output: Seq<char>,
    pub exit_code: i32,
    pub truncated: bool,
}

impl View for ExecuteResult {
    type V = ExecuteResultView;

    open spec fn view(&self) -> ExecuteResultView {
        ExecuteResultView {
            output: self.output@,
            exit_code: self.exit_code,
            truncated: self.truncated,
        }
    }
}

/// The output of the placeholder execution of `command`.
pub open spec fn stub_output(command: Seq<char>) -> Seq<char> {
    "stub: would execute `"@ + command + "`\n"@
}

/// The output that reports that no binary is configured to run `command`.
pub open spec fn unconfigured_output(command: Seq<char>) -> Seq<char> {
    "native_execute: WASM binary not yet configured for command: "@ + command
        + "\nUse execute_wasm() directly with a pre-compiled WASM binary.\n"@
}

/// The output that reports that a module did not compile.
pub open spec fn compile_failure_output(error: Seq<char>) -> Seq<char> {
    "Failed to compile WASM module: "@ + error + "\n"@
}

/// Standard output followed by standard error. If both are present and
/// standard output does not end in a newline, one is put between them.
pub open spec fn combined(stdout: Seq<char>, stderr: Seq<char>) -> Seq<char> {
    if stderr.len() == 0 {
        stdout
    } else if stdout.len() > 0 && stdout.last() != '\n' {
        stdout + seq!['\n'] + stderr
    } else {
        stdout + stderr
    }
}

/// The result of a run from what was captured and from the engine's error
/// message, if it reported one: exit code zero without an error and one with
/// it; the captured output, or the error message if nothing was captured.
pub open spec fn finished(
    stdout: Seq<char>,
    stderr: Seq<char>,
    run_error: Option<Seq<char>>,
) -> ExecuteResultView {
    let captured = combined(stdout, stderr);
    match run_error {
        None => ExecuteResultView { output: captured, exit_code: 0, truncated: false },
        Some(message) => ExecuteResultView {
            output: if captured.len() == 0 {
                message
            } else {
                captured
            },
            exit_code: 1,
            truncated: false,
        },
    }
}

/// The view of an optional string.
pub open spec fn message_view(m: Option<String>) -> Option<Seq<char>> {
    match m {
        Some(s) => Some(s@),
        None => None,
    }
}

/// Placeholder execution: echoes the command back and succeeds.
pub fn execute(command: &str) -> (r: ExecuteResult)
    ensures
        r@ == (ExecuteResultView {
            output: stub_output(command@),
            exit_code: 0,
            truncated: false,
        }),
{
    let mut output = String::from_str("stub: would execute `");
    output.append(command);
    output.append("`\n");
    ExecuteResult { output, exit_code: 0, truncated: false }
}

/// Execution without a configured binary: reports that, and fails with exit
/// code one. The filesystem is not touched.
pub fn native_execute<B: FsCallbacks>(command: &str, fs: Option<Arc<ProxyFileSystem<B>>>) -> (r:
    ExecuteResult)
    ensures
        r@ == (ExecuteResultView {
            output: unconfigured_output(command@),
            exit_code: 1,
            truncated: false,
        }),
{
    let mut output = String::from_str(
        "native_execute: WASM binary not yet configured for command: ",
    );
    output.append(command);
    output.append("\nUse execute_wasm() directly with a pre-compiled WASM binary.\n");
    ExecuteResult { output, exit_code: 1, truncated: false }
}

/// The result of a run whose module did not compile.
pub fn compile_failure(error: &str) -> (r: ExecuteResult)
    ensures
        r@ == (ExecuteResultView {
            output: compile_failure_output(error@),
            exit_code: 1,
            truncated: false,
        }),
{
    let mut output = String::from_str("Failed to compile WASM module: ");
    output.append(error);
    output.append("\n");
    ExecuteResult { output, exit_code: 1, truncated: false }
}

/// Appends captured standard error to captured standard output.
pub fn combine_output(stdout: String, stderr: &str) -> (r: String)
    ensures
        r@ == combined(stdout@, stderr@),
{
    let mut output = stdout;
    if !stderr.is_empty() {
        let len = output.as_str().unicode_len();
        if len > 0 && output.as_str().get_char(len - 1) != '\n' {
            proof {
                reveal_strlit("\n");
            }
            output.append("\n");
            assert("\n"@ =~= seq!['\n']);
        }
        output.append(stderr);
    }
    output
}

/// Puts the result of a run together from the captured output and the
/// engine's error message, if it reported one.
pub fn finish_execution(stdout: String, stderr: &str, run_error: Option<String>) -> (r:
    ExecuteResult)
    ensures
        r@ == finished(stdout@, stderr@, message_view(run_error)),
{
    let output = combine_output(stdout, stderr);
    match run_error {
        None => ExecuteResult { output, exit_code: 0, truncated: false },
        Some(message) => {
            if output.as_str().is_empty() {
                ExecuteResult { output: message, exit_code: 1, truncated: false }
            } else {
                ExecuteResult { output, exit_code: 1, truncated: false }
            }
        },
    }
}

} // verus!
