use proxy_fs::exit_code::{resolve_exit_code, CallOutcome};
use proxy_fs::execute::{combine_output, compile_failure, execute, finish_execution, native_execute};
use proxy_fs::local::LocalBackend;

#[test]
fn test_native_execute_stub() {
    let result = native_execute::<LocalBackend>("echo hello", None);
    assert_eq!(result.exit_code, 1);
    assert!(result.output.contains("WASM binary not yet configured"));
}

#[test]
fn native_execute_exact_output() {
    let result = native_execute::<LocalBackend>("ls -l", None);
    assert_eq!(
        result.output,
        "native_execute: WASM binary not yet configured for command: ls -l\nUse execute_wasm() directly with a pre-compiled WASM binary.\n"
    );
    assert!(!result.truncated);
}

#[test]
fn execute_echoes_the_command() {
    let result = execute("echo hi");
    assert_eq!(result.output, "stub: would execute `echo hi`\n");
    assert_eq!(result.exit_code, 0);
    assert!(!result.truncated);
}

#[test]
fn compile_failure_reports_the_error() {
    let result = compile_failure("bad magic");
    assert_eq!(result.exit_code, 1);
    assert!(result.output.contains("Failed to compile WASM module"));
    assert_eq!(result.output, "Failed to compile WASM module: bad magic\n");
    assert!(!result.truncated);
}

#[test]
fn combine_output_cases() {
    assert_eq!(combine_output("out\n".to_string(), "err"), "out\nerr");
    assert_eq!(combine_output("out".to_string(), "err"), "out\nerr");
    assert_eq!(combine_output("out".to_string(), ""), "out");
    assert_eq!(combine_output(String::new(), "err"), "err");
    assert_eq!(combine_output(String::new(), ""), "");
}

#[test]
fn finish_execution_cases() {
    let ok = finish_execution("hello world\n".to_string(), "", None);
    assert_eq!((ok.output.as_str(), ok.exit_code, ok.truncated), ("hello world\n", 0, false));
    let failed = finish_execution("partial".to_string(), "oops\n", Some("trap".to_string()));
    assert_eq!((failed.output.as_str(), failed.exit_code), ("partial\noops\n", 1));
    let silent = finish_execution(String::new(), "", Some("trap".to_string()));
    assert_eq!((silent.output.as_str(), silent.exit_code), ("trap", 1));
    let quiet = finish_execution(String::new(), "", None);
    assert_eq!((quiet.output.as_str(), quiet.exit_code), ("", 0));
}

#[test]
fn resolve_exit_code_cases() {
    assert_eq!(resolve_exit_code(&CallOutcome::Returned), 0);
    assert_eq!(resolve_exit_code(&CallOutcome::Exit(3)), 3);
    assert_eq!(resolve_exit_code(&CallOutcome::Exit(-1)), -1);
    assert_eq!(resolve_exit_code(&CallOutcome::ThreadExit), 0);
    assert_eq!(resolve_exit_code(&CallOutcome::Error("WASI exited with code: ExitCode::17".to_string())), 17);
    assert_eq!(resolve_exit_code(&CallOutcome::Error("null function or function signature mismatch".to_string())), 0);
}
