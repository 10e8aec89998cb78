use proxy_fs::exit_code::{find_bytes, parse_exit_code_from_message, read_exit_code};

#[test]
fn exit_code_after_marker() {
    assert_eq!(parse_exit_code_from_message("WASI exited with code: ExitCode::42"), Some(42));
    assert_eq!(parse_exit_code_from_message("js: WASI exited with code: ExitCode::1 (trap)"), Some(1));
    assert_eq!(parse_exit_code_from_message("ExitCode::0"), Some(0));
    assert_eq!(parse_exit_code_from_message("ExitCode::007"), Some(7));
}

#[test]
fn exit_code_missing_marker() {
    assert_eq!(parse_exit_code_from_message(""), None);
    assert_eq!(parse_exit_code_from_message("null function or function signature mismatch"), None);
    assert_eq!(parse_exit_code_from_message("ExitCode:12"), None);
}

#[test]
fn exit_code_without_digits() {
    assert_eq!(parse_exit_code_from_message("ExitCode::"), None);
    assert_eq!(parse_exit_code_from_message("ExitCode::-1"), None);
    assert_eq!(parse_exit_code_from_message("ExitCode::x9"), None);
}

#[test]
fn exit_code_uses_first_marker_only() {
    assert_eq!(parse_exit_code_from_message("ExitCode::3 then ExitCode::4"), Some(3));
    assert_eq!(parse_exit_code_from_message("ExitCode::? then ExitCode::4"), None);
}

#[test]
fn exit_code_range() {
    assert_eq!(parse_exit_code_from_message("ExitCode::2147483647"), Some(i32::MAX));
    assert_eq!(parse_exit_code_from_message("ExitCode::2147483648"), None);
    assert_eq!(parse_exit_code_from_message("ExitCode::99999999999999999999999"), None);
    assert_eq!(parse_exit_code_from_message("ExitCode::0000000000000000000012"), Some(12));
}

#[test]
fn exit_code_after_non_ascii_text() {
    assert_eq!(parse_exit_code_from_message("caf\u{e9} \u{2014} ExitCode::9\u{e9}"), Some(9));
}

#[test]
fn find_bytes_first_occurrence() {
    assert_eq!(find_bytes(b"abcabc", b"bc"), Some(1));
    assert_eq!(find_bytes(b"abcabc", b"cb"), None);
    assert_eq!(find_bytes(b"abc", b""), Some(0));
    assert_eq!(find_bytes(b"", b"a"), None);
    assert_eq!(find_bytes(b"aab", b"ab"), Some(1));
}

#[test]
fn read_exit_code_from_offset() {
    assert_eq!(read_exit_code(b"x12y", 1), Some(12));
    assert_eq!(read_exit_code(b"x12y", 3), None);
    assert_eq!(read_exit_code(b"x12", 3), None);
    assert_eq!(read_exit_code(b"x12", 9), None);
}
