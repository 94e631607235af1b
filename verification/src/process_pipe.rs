//! Child processes and pipe-based communication with them.
//!
//! A child is driven through a small session type, `ChildPipe`, whose
//! contracts encode the discipline that makes pipe communication safe: data
//! may be written only while the child's input pipe is open, and the child's
//! output may be read to completion — and the child awaited — only after the
//! input pipe has been closed. Closing every write end is the end-of-input
//! signal a filtering child waits for; reading before that point would block
//! forever. The verified functions below follow that discipline, so Verus
//! checks the close-before-read ordering on every path.
//!
//! What a child writes depends on the program the operating system runs, so
//! no contract here pins the captured text; the exit-status decoding, which
//! is pure, is verified exactly (`exit_code_of`).

use vstd::prelude::*;
use std::io::Read;
use std::io::Write;

verus! {

/// How a reaped child process terminated.
#[derive(Clone, Copy, Debug, PartialEq, Eq, Structural)]
pub enum ChildStatus {
    /// The process exited on its own with this code.
    Exited(u32),
    /// The process was terminated by this signal.
    Signaled(i32),
    /// The platform reported neither an exit code nor a signal.
    Unknown,
}

/// A failure reported (rather than treated as fatal) when running a child
/// process.
#[derive(Clone, Copy, Debug, PartialEq, Eq, Structural)]
pub enum CmdError {
    /// The operating system could not launch the program.
    Launch,
    /// Exchanging data with the child, or awaiting it, failed.
    Io,
    /// The child's output was not valid text.
    InvalidData,
}

#[verifier::external_type_specification]
#[verifier::external_body]
pub struct ExJob(subprocess::Job);

/// A running child process together with the state of its pipe ends:
/// whether the write end of its input pipe is still open, and whether its
/// output is captured through a pipe.
struct ChildPipe {
    job: subprocess::Job,
    stdin_open: bool,
    stdout_piped: bool,
}

/// Relies on `subprocess::Exec` (`cmd`, `args`, `stdin`, `stdout`, `start`):
/// launches `program` with the given arguments, its input and output
/// attached to fresh pipes exactly as requested; the job's pipe ends are
/// present exactly for the streams that were piped. Halts if the operating
/// system cannot launch the program.
#[verifier::external_body]
fn spawn_piped(program: &str, args: &[&str], pipe_stdin: bool, pipe_stdout: bool) -> (child:
    ChildPipe)
    ensures
        child.stdin_open == pipe_stdin,
        child.stdout_piped == pipe_stdout,
{
    let mut exec = subprocess::Exec::cmd(program).args(args.iter().copied());
    if pipe_stdin {
        exec = exec.stdin(subprocess::Redirection::Pipe);
    }
    if pipe_stdout {
        exec = exec.stdout(subprocess::Redirection::Pipe);
    }
    let job = exec.start().expect("failed to launch child process");
    ChildPipe { job, stdin_open: pipe_stdin, stdout_piped: pipe_stdout }
}

/// Relies on `subprocess::Exec` (`cmd`, `args`, `stdin`, `stdout`, `start`)
/// as `spawn_piped` does, but reports a launch failure to the caller
/// instead of halting.
#[verifier::external_body]
fn try_spawn_piped(program: &str, args: &[&str], pipe_stdin: bool, pipe_stdout: bool) -> (child:
    Result<ChildPipe, CmdError>)
    ensures
        match child {
            Ok(c) => c.stdin_open == pipe_stdin && c.stdout_piped == pipe_stdout,
            Err(e) => e == CmdError::Launch,
        },
{
    let mut exec = subprocess::Exec::cmd(program).args(args.iter().copied());
    if pipe_stdin {
        exec = exec.stdin(subprocess::Redirection::Pipe);
    }
    if pipe_stdout {
        exec = exec.stdout(subprocess::Redirection::Pipe);
    }
    match exec.start() {
        Ok(job) => Ok(ChildPipe { job, stdin_open: pipe_stdin, stdout_piped: pipe_stdout }),
        Err(_) => Err(CmdError::Launch),
    }
}

/// Relies on `std::io::Write::write_all` on the job's `stdin` pipe end,
/// which `subprocess` holds exactly while the input pipe is open: every
/// byte of `data` is written to the child's input. Halts if writing fails.
#[verifier::external_body]
fn write_stdin(child: &mut ChildPipe, data: &str)
    requires
        old(child).stdin_open,
    ensures
        final(child).stdin_open,
        final(child).stdout_piped == old(child).stdout_piped,
{
    child.job.stdin.as_mut().expect("child stdin is not piped").write_all(
        data.as_bytes(),
    ).expect("writing to the child process failed");
}

/// Drops the write end of the child's input pipe (the job's `stdin` field).
/// Relies on `subprocess` holding that end in the field and on the
/// destructor closing it: once every write end is closed, the child
/// observes end-of-input, which is what lets a filtering child finish.
#[verifier::external_body]
fn close_stdin(child: &mut ChildPipe)
    ensures
        !final(child).stdin_open,
        final(child).stdout_piped == old(child).stdout_piped,
{
    child.job.stdin = None;
    child.stdin_open = false;
}

/// Relies on `std::io::Read::read_to_string` on the job's `stdout` pipe
/// end: reads the child's entire output — everything until the child closes
/// its output — and decodes it as text. Requiring the input pipe to be
/// closed first is what rules out the read blocking forever on a filtering
/// child. Halts if reading fails or the output is not valid text.
#[verifier::external_body]
fn read_stdout(child: &mut ChildPipe) -> (text: String)
    requires
        !old(child).stdin_open,
        old(child).stdout_piped,
    ensures
        !final(child).stdin_open,
        final(child).stdout_piped == old(child).stdout_piped,
{
    let mut text = String::new();
    child.job.stdout.as_mut().expect("child stdout is not piped").read_to_string(
        &mut text,
    ).expect("reading the child process output failed");
    text
}

/// Relies on `std::io::Read::read_to_string` on the job's `stdout` pipe end
/// as `read_stdout` does, but reports a failure to the caller instead of
/// halting, telling invalid text apart from an exchange failure.
#[verifier::external_body]
fn try_read_stdout(child: &mut ChildPipe) -> (text: Result<String, CmdError>)
    requires
        !old(child).stdin_open,
        old(child).stdout_piped,
    ensures
        !final(child).stdin_open,
        final(child).stdout_piped == old(child).stdout_piped,
        text matches Err(e) ==> (e == CmdError::Io || e == CmdError::InvalidData),
{
    let mut text = String::new();
    match child.job.stdout.as_mut().expect("child stdout is not piped").read_to_string(&mut text) {
        Ok(_) => Ok(text),
        Err(e) if e.kind() == std::io::ErrorKind::InvalidData => Err(CmdError::InvalidData),
        Err(_) => Err(CmdError::Io),
    }
}

/// Relies on `subprocess::Job::wait` and `ExitStatus` (`code`, `signal`):
/// blocks until the child terminates, reaps it, and tells a normal exit
/// apart from death by signal. Requiring the input pipe to be closed first
/// is what rules out waiting forever on a filtering child. Halts if the
/// wait itself fails.
#[verifier::external_body]
fn wait_child(child: &mut ChildPipe) -> (status: ChildStatus)
    requires
        !old(child).stdin_open,
    ensures
        !final(child).stdin_open,
        final(child).stdout_piped == old(child).stdout_piped,
{
    let status = child.job.wait().expect("waiting for the child process failed");
    match status.code() {
        Some(code) => ChildStatus::Exited(code),
        None => match status.signal() {
            Some(signal) => ChildStatus::Signaled(signal),
            None => ChildStatus::Unknown,
        },
    }
}

/// Relies on `subprocess::Job::wait` and `ExitStatus` (`code`, `signal`) as
/// `wait_child` does, but reports a failed wait to the caller instead of
/// halting.
#[verifier::external_body]
fn try_wait_child(child: &mut ChildPipe) -> (status: Result<ChildStatus, CmdError>)
    requires
        !old(child).stdin_open,
    ensures
        !final(child).stdin_open,
        final(child).stdout_piped == old(child).stdout_piped,
        status matches Err(e) ==> e == CmdError::Io,
{
    let status = match child.job.wait() {
        Ok(status) => status,
        Err(_) => return Err(CmdError::Io),
    };
    Ok(match status.code() {
        Some(code) => ChildStatus::Exited(code),
        None => match status.signal() {
            Some(signal) => ChildStatus::Signaled(signal),
            None => ChildStatus::Unknown,
        },
    })
}

/// The numeric exit code a terminated child is reported as: its own exit
/// code when it exited normally (exit codes occupy 0–255), and -1 — never
/// mistakable for success — when it was killed by a signal or its fate is
/// unknown.
pub open spec fn exit_code_spec(status: ChildStatus) -> int {
    match status {
        ChildStatus::Exited(code) => if code <= 255 {
            code as int
        } else {
            -1
        },
        _ => -1,
    }
}

/// Decodes a child's termination status into a numeric exit code, exactly
/// as `exit_code_spec` describes; the result is 0 precisely when the child
/// exited normally with code 0, so an abnormal death is never reported as
/// success.
pub fn exit_code_of(status: ChildStatus) -> (code: i32)
    ensures
        code == exit_code_spec(status),
        code == 0 <==> status == ChildStatus::Exited(0u32),
{
    match status {
        ChildStatus::Exited(c) => if c <= 255 {
            c as i32
        } else {
            -1
        },
        ChildStatus::Signaled(_) => -1,
        ChildStatus::Unknown => -1,
    }
}

/// Launches `program` with `args`, its output captured through a pipe,
/// waits for it to terminate, and returns everything it wrote to its
/// output, decoded as text (including any trailing newline the child
/// wrote). A launch failure, an exchange failure, or output that is not
/// valid text is treated as fatal and halts inside the trusted layer.
pub fn run_command(program: &str, args: &[&str]) -> String {
    let mut child = spawn_piped(program, args, false, true);
    let text = read_stdout(&mut child);
    let _status = wait_child(&mut child);
    text
}

/// Feeds `input` to a pass-through filter child (`cat`) over its input
/// pipe, closes the pipe's write end so the child observes end-of-input,
/// reads the child's entire output, waits for it to terminate, and returns
/// the echoed text. The contracts of the session steps force the close to
/// come before the read; without it, the filter would wait for more input
/// forever.
pub fn pipe_through_cat(input: &str) -> String {
    let no_args: [&str; 0] = [];
    let mut child = spawn_piped("cat", no_args.as_slice(), true, true);
    write_stdin(&mut child, input);
    close_stdin(&mut child);
    let text = read_stdout(&mut child);
    let _status = wait_child(&mut child);
    text
}

/// Runs `command` through the shell — `sh` with arguments
/// `["-c", command]`, so shell syntax is interpreted — waits for it to
/// terminate, and returns its numeric exit code as `exit_code_spec`
/// decodes it: the child's own code (0–255) for a normal exit, and -1,
/// which is never success, when it was killed by a signal.
pub fn get_exit_code(command: &str) -> i32 {
    let shell_args: [&str; 2] = ["-c", command];
    let mut child = spawn_piped("sh", shell_args.as_slice(), false, false);
    let status = wait_child(&mut child);
    exit_code_of(status)
}

/// Like `run_command`, but never halts the caller: a launch failure, an
/// exchange failure, and output that is not valid text are each reported
/// as the corresponding `CmdError` value instead.
pub fn run_command_with_result(program: &str, args: &[&str]) -> Result<String, CmdError> {
    let mut child = match try_spawn_piped(program, args, false, true) {
        Ok(c) => c,
        Err(e) => {
            return Err(e);
        },
    };
    let text = match try_read_stdout(&mut child) {
        Ok(t) => t,
        Err(e) => {
            return Err(e);
        },
    };
    match try_wait_child(&mut child) {
        Ok(_status) => Ok(text),
        Err(e) => Err(e),
    }
}

/// Feeds `input` to a line-filtering child — `grep` with `pattern` as its
/// sole argument — over its input pipe, closes the pipe's write end so the
/// child observes end-of-input, reads the child's entire output, waits for
/// it to terminate, and returns the filter's output: the matching lines,
/// each with its trailing newline, in the order the filter emitted them,
/// or the empty string when nothing matched.
pub fn pipe_through_grep(pattern: &str, input: &str) -> String {
    let pattern_args: [&str; 1] = [pattern];
    let mut child = spawn_piped("grep", pattern_args.as_slice(), true, true);
    write_stdin(&mut child, input);
    close_stdin(&mut child);
    let text = read_stdout(&mut child);
    let _status = wait_child(&mut child);
    text
}

} // verus!
