use vstd::prelude::*;

verus! {

/// What a client asks the service to do with its source.
#[derive(Debug, Clone, Copy, PartialEq, Eq, Structural)]
pub enum TaskType {
    /// Compile, link and run the program in the sandbox.
    Execute,
    /// Run the lint tool on the source.
    Lint,
    /// Ask the compiler for its typed syntax tree.
    Tast,
    /// Ask the compiler for its intermediate representation.
    Llvm,
}

/// One submitted unit of work. The identifier is the 128-bit value of a UUID.
#[derive(Debug)]
pub struct Job {
    pub id: u128,
    pub task_type: TaskType,
    pub code: String,
}

/// What a finished job produced. An exit code of `-1` means that no real
/// process exit was observed (a timeout or a failure of the service itself).
#[derive(Debug, Clone)]
pub struct JobResult {
    pub stdout: String,
    pub stderr: String,
    pub exit_code: i32,
}

/// A submission as a client sends it.
#[derive(Debug)]
pub struct ExecuteRequest {
    pub task: TaskType,
    pub code: String,
}

/// The answer to a submission: the identifier under which the result will appear.
#[derive(Debug)]
pub struct ExecuteResponse {
    pub job_id: u128,
}

/// The exit code that stands for "no real process exit".
pub const NO_EXIT: i32 = -1;

/// The exit code recorded for a process: its own code, or `NO_EXIT` when it
/// was ended by a signal and has none.
pub open spec fn recorded_exit_code(code: Option<i32>) -> i32 {
    match code {
        Some(c) => c,
        None => NO_EXIT,
    }
}

pub fn exit_code_of(code: Option<i32>) -> (r: i32)
    ensures
        r == recorded_exit_code(code),
{
    match code {
        Some(c) => c,
        None => NO_EXIT,
    }
}

impl JobResult {
    /// A result of the two captured streams and an exit code.
    pub fn new(stdout: String, stderr: String, exit_code: i32) -> (r: JobResult)
        ensures
            r.stdout@ == stdout@,
            r.stderr@ == stderr@,
            r.exit_code == exit_code,
    {
        JobResult { stdout, stderr, exit_code }
    }

    /// A field-by-field copy.
    pub fn duplicate(&self) -> (r: JobResult)
        ensures
            r == *self,
    {
        JobResult {
            stdout: self.stdout.clone(),
            stderr: self.stderr.clone(),
            exit_code: self.exit_code,
        }
    }

    /// A result with empty stdout, the given message on stderr and `NO_EXIT`.
    pub fn failure(message: String) -> (r: JobResult)
        ensures
            r.stdout@ == Seq::<char>::empty(),
            r.stderr@ == message@,
            r.exit_code == NO_EXIT,
    {
        JobResult { stdout: String::new(), stderr: message, exit_code: NO_EXIT }
    }
}

} // verus!
