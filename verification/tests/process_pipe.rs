use concurrency_sync::get_exit_code;
use concurrency_sync::pipe_through_cat;
use concurrency_sync::pipe_through_grep;
use concurrency_sync::process_pipe::exit_code_of;
use concurrency_sync::process_pipe::ChildStatus;
use concurrency_sync::process_pipe::CmdError;
use concurrency_sync::run_command;
use concurrency_sync::run_command_with_result;

#[test]
fn test_run_echo() {
    let output = run_command("echo", &["hello"]);
    assert_eq!(output.trim(), "hello");
}

#[test]
fn test_run_with_args() {
    let output = run_command("echo", &["-n", "no newline"]);
    assert_eq!(output, "no newline");
}

#[test]
fn test_pipe_cat() {
    let output = pipe_through_cat("hello pipe!");
    assert_eq!(output, "hello pipe!");
}

#[test]
fn test_pipe_multiline() {
    let input = "line1\nline2\nline3";
    assert_eq!(pipe_through_cat(input), input);
}

#[test]
fn test_exit_code_success() {
    assert_eq!(get_exit_code("true"), 0);
}

#[test]
fn test_exit_code_failure() {
    assert_eq!(get_exit_code("false"), 1);
}

#[test]
fn test_run_command_with_result_success() {
    let result = run_command_with_result("echo", &["hello"]);
    assert!(result.is_ok());
    assert_eq!(result.unwrap().trim(), "hello");
}

#[test]
fn test_run_command_with_result_nonexistent() {
    let result = run_command_with_result("nonexistent_command_xyz", &[]);
    // Should be an error because command not found
    assert!(result.is_err());
}

#[test]
fn test_pipe_through_grep_basic() {
    let input = "apple\nbanana\ncherry\n";
    let output = pipe_through_grep("a", input);
    // grep outputs matching lines with newline
    assert_eq!(output, "apple\nbanana\n");
}

#[test]
fn test_pipe_through_grep_no_match() {
    let input = "apple\nbanana\ncherry\n";
    let output = pipe_through_grep("z", input);
    // No lines match -> empty string
    assert_eq!(output, "");
}

#[test]
fn test_pipe_through_grep_multiline() {
    let input = "first line\nsecond line\nthird line\n";
    let output = pipe_through_grep("second", input);
    assert_eq!(output, "second line\n");
}

#[test]
fn test_run_echo_no_args() {
    assert_eq!(run_command("echo", &[]), "\n");
}

#[test]
fn test_pipe_cat_empty() {
    assert_eq!(pipe_through_cat(""), "");
}

#[test]
fn test_exit_code_shell_syntax() {
    assert_eq!(get_exit_code("exit 7"), 7);
}

#[test]
fn test_exit_code_killed_by_signal() {
    // The shell kills itself; death by signal must not look like success.
    assert_eq!(get_exit_code("kill -9 $$"), -1);
}

#[test]
fn test_run_command_with_result_launch_failure_kind() {
    let result = run_command_with_result("nonexistent_command_xyz", &[]);
    assert!(matches!(result, Err(CmdError::Launch)));
}

#[test]
fn test_run_command_with_result_invalid_text() {
    // printf emits the single byte 0xFF, which is not valid UTF-8.
    let result = run_command_with_result("sh", &["-c", "printf '\\377'"]);
    assert!(matches!(result, Err(CmdError::InvalidData)));
}

#[test]
fn test_pipe_through_grep_lines_contain_pattern() {
    let output = pipe_through_grep("an", "banana\nmango\ncherry\n");
    assert_eq!(output, "banana\nmango\n");
    for line in output.lines() {
        assert!(line.contains("an"));
    }
}

#[test]
fn test_exit_code_of_normal_exits() {
    assert_eq!(exit_code_of(ChildStatus::Exited(0)), 0);
    assert_eq!(exit_code_of(ChildStatus::Exited(1)), 1);
    assert_eq!(exit_code_of(ChildStatus::Exited(255)), 255);
}

#[test]
fn test_exit_code_of_abnormal_ends() {
    assert_eq!(exit_code_of(ChildStatus::Signaled(9)), -1);
    assert_eq!(exit_code_of(ChildStatus::Unknown), -1);
    assert_eq!(exit_code_of(ChildStatus::Exited(300)), -1);
}
