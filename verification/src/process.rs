//! Processes. TantraOS runs tasklets, not processes: a command can be
//! described but not spawned, and exit codes and statuses are plain numbers.
use vstd::prelude::*;
use crate::pal::{ErrorKind, IoError, IoResult};
use crate::os::TASKLET_PID;

verus! {

/// The exit status with which a panicking or aborting tasklet leaves.
pub const ABORT_STATUS: i32 = 1;

/// The message of the error for spawning a process.
pub open spec fn spawn_message() -> Seq<char> {
    "TantraOS doesn't support traditional process spawning"@
}

/// The message of the error for killing a process.
pub open spec fn kill_message() -> Seq<char> {
    "TantraOS tasklets cannot be killed"@
}

/// A command to run a program; TantraOS keeps none of its settings.
pub struct Command {}

impl Command {
    /// A command for `program`.
    pub fn new(program: &str) -> (r: Command) {
        Command {}
    }

    /// Adds an argument; the command is left as it is.
    pub fn arg(&mut self, arg: &str) -> (r: &mut Command)
        ensures
            *r == *old(self),
            *final(self) == *final(r),
    {
        self
    }

    /// Adds arguments; the command is left as it is.
    pub fn args(&mut self, args: &[&str]) -> (r: &mut Command)
        ensures
            *r == *old(self),
            *final(self) == *final(r),
    {
        self
    }

    /// Sets an environment variable; the command is left as it is.
    pub fn env(&mut self, key: &str, val: &str) -> (r: &mut Command)
        ensures
            *r == *old(self),
            *final(self) == *final(r),
    {
        self
    }

    /// Clears the environment; the command is left as it is.
    pub fn env_clear(&mut self) -> (r: &mut Command)
        ensures
            *r == *old(self),
            *final(self) == *final(r),
    {
        self
    }

    /// Sets the working directory; the command is left as it is.
    pub fn cwd(&mut self, dir: &str) -> (r: &mut Command)
        ensures
            *r == *old(self),
            *final(self) == *final(r),
    {
        self
    }

    /// Sets standard input; the command is left as it is.
    pub fn stdin(&mut self, stdin: Stdio) -> (r: &mut Command)
        ensures
            *r == *old(self),
            *final(self) == *final(r),
    {
        self
    }

    /// Sets standard output; the command is left as it is.
    pub fn stdout(&mut self, stdout: Stdio) -> (r: &mut Command)
        ensures
            *r == *old(self),
            *final(self) == *final(r),
    {
        self
    }

    /// Sets standard error; the command is left as it is.
    pub fn stderr(&mut self, stderr: Stdio) -> (r: &mut Command)
        ensures
            *r == *old(self),
            *final(self) == *final(r),
    {
        self
    }

    /// Spawning a process is not supported.
    pub fn spawn(&mut self, default: Stdio, needs_stdin: bool) -> (r: IoResult<Process>)
        ensures
            r matches Err(e) && e.kind == ErrorKind::Unsupported && e.message@ == spawn_message(),
            *final(self) == *old(self),
    {
        Err(IoError {
            kind: ErrorKind::Unsupported,
            message: String::from_str("TantraOS doesn't support traditional process spawning"),
        })
    }
}

/// A choice of standard stream for a child.
pub struct Stdio;

/// The standard stream that a child gets.
pub enum ChildStdio {
    Inherit,
    Null,
    /// One end of an anonymous pipe, by its handle.
    Owned(u64),
}

impl Stdio {
    /// The null stream.
    pub fn null() -> (r: Stdio) {
        Stdio
    }

    /// The parent's stream.
    pub fn inherit() -> (r: Stdio) {
        Stdio
    }

    /// A new pipe.
    pub fn piped() -> (r: Stdio) {
        Stdio
    }

    /// The stream that a child gets: always the parent's.
    pub fn to_child_stdio(&self, readable: bool) -> (r: IoResult<ChildStdio>)
        ensures
            r matches Ok(ChildStdio::Inherit),
    {
        Ok(ChildStdio::Inherit)
    }
}

/// A running process, by its handle.
pub struct Process {
    handle: u64,
}

impl Process {
    /// The handle of the process.
    pub closed spec fn handle_of(&self) -> u64 {
        self.handle
    }

    /// The identifier of the process: the low 32 bits of its handle.
    pub fn id(&self) -> (r: u32)
        ensures
            r == self.handle_of() % 0x1_0000_0000,
    {
        (self.handle % 0x1_0000_0000) as u32
    }

    /// Killing a tasklet is not supported.
    pub fn kill(&mut self) -> (r: IoResult<()>)
        ensures
            r matches Err(e) && e.kind == ErrorKind::Unsupported && e.message@ == kill_message(),
            *final(self) == *old(self),
    {
        Err(IoError {
            kind: ErrorKind::Unsupported,
            message: String::from_str("TantraOS tasklets cannot be killed"),
        })
    }

    /// Waits for the process, which has exited successfully.
    pub fn wait(&mut self) -> (r: IoResult<ExitStatus>)
        ensures
            r matches Ok(s) && s.code_of() == 0,
            *final(self) == *old(self),
    {
        Ok(ExitStatus { code: 0 })
    }

    /// The status of the process if it has exited; it has, successfully.
    pub fn try_wait(&mut self) -> (r: IoResult<Option<ExitStatus>>)
        ensures
            r matches Ok(Some(s)) && s.code_of() == 0,
            *final(self) == *old(self),
    {
        Ok(Some(ExitStatus { code: 0 }))
    }
}

/// The status with which a process exited: its exit code.
#[derive(Clone, Copy, Debug, PartialEq, Eq, Structural)]
pub struct ExitStatus {
    code: i32,
}

impl ExitStatus {
    /// The exit code.
    pub closed spec fn code_of(&self) -> i32 {
        self.code
    }

    /// The exit code.
    pub fn exit_code(&self) -> (r: Option<i32>)
        ensures
            r == Some(self.code_of()),
    {
        Some(self.code)
    }

    /// The exit code.
    pub fn code(&self) -> (r: Option<i32>)
        ensures
            r == Some(self.code_of()),
    {
        Some(self.code)
    }

    /// Two statuses with the same code are the same status.
    pub proof fn lemma_code_determines(a: ExitStatus, b: ExitStatus)
        ensures
            a.code_of() == b.code_of() ==> a == b,
    {
    }

    /// Whether the process exited with code 0.
    pub fn success(&self) -> (r: bool)
        ensures
            r == (self.code_of() == 0),
    {
        self.code == 0
    }
}

impl Default for ExitStatus {
    fn default() -> (r: Self)
        ensures
            r.code_of() == 0,
    {
        ExitStatus { code: 0 }
    }
}

impl From<i32> for ExitStatus {
    fn from(code: i32) -> (r: Self)
        ensures
            r.code_of() == code,
    {
        ExitStatus { code }
    }
}

impl vstd::std_specs::convert::FromSpecImpl<i32> for ExitStatus {
    open spec fn obeys_from_spec() -> bool {
        true
    }

    closed spec fn from_spec(code: i32) -> Self {
        ExitStatus { code }
    }
}

/// The code with which a program leaves.
#[derive(Clone, Copy, Debug, PartialEq, Eq, Structural)]
pub struct ExitCode(i32);

impl ExitCode {
    /// The number of the code.
    pub closed spec fn value(&self) -> i32 {
        self.0
    }

    /// Two exit codes with the same number are the same code.
    pub proof fn lemma_value_determines(a: ExitCode, b: ExitCode)
        ensures
            a.value() == b.value() ==> a == b,
    {
    }

    /// Success: 0.
    pub fn success_code() -> (r: ExitCode)
        ensures
            r.value() == 0,
    {
        ExitCode(0)
    }

    /// Failure: 1.
    pub fn failure_code() -> (r: ExitCode)
        ensures
            r.value() == 1,
    {
        ExitCode(1)
    }

    /// The number of the code.
    pub fn as_i32(self) -> (r: i32)
        ensures
            r == self.value(),
    {
        self.0
    }

    /// The code with number `code`.
    pub fn from_raw(code: i32) -> (r: Self)
        ensures
            r.value() == code,
    {
        ExitCode(code)
    }
}

impl From<u8> for ExitCode {
    fn from(code: u8) -> (r: Self)
        ensures
            r.value() == code as i32,
    {
        ExitCode(code as i32)
    }
}

impl vstd::std_specs::convert::FromSpecImpl<u8> for ExitCode {
    open spec fn obeys_from_spec() -> bool {
        true
    }

    closed spec fn from_spec(code: u8) -> Self {
        ExitCode(code as i32)
    }
}

impl From<ExitCode> for i32 {
    fn from(code: ExitCode) -> (r: i32)
        ensures
            r == code.value(),
    {
        code.0
    }
}

impl vstd::std_specs::convert::FromSpecImpl<ExitCode> for i32 {
    open spec fn obeys_from_spec() -> bool {
        true
    }

    closed spec fn from_spec(code: ExitCode) -> i32 {
        code.0
    }
}

/// The identifier of the running process: TantraOS has none, so a placeholder.
pub fn getpid() -> (r: u32)
    ensures
        r == TASKLET_PID,
{
    TASKLET_PID
}

/// The identifier of the running process.
pub fn id() -> (r: u32)
    ensures
        r == TASKLET_PID,
{
    getpid()
}

/// An exit status made from a code reports that code.
pub proof fn lemma_exit_status_from_code(code: i32)
    ensures
        <ExitStatus as vstd::std_specs::convert::FromSpec<i32>>::from_spec(code).code_of() == code,
{
}

/// An exit code made from a byte converts back to the byte's value.
pub proof fn lemma_exit_code_round_trip(byte: u8)
    ensures
        <i32 as vstd::std_specs::convert::FromSpec<ExitCode>>::from_spec(
            <ExitCode as vstd::std_specs::convert::FromSpec<u8>>::from_spec(byte),
        ) == byte as i32,
{
}

} // verus!
