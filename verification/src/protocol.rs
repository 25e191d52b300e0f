//! Messages of the control-plane protocol between the host and the in-guest
//! agent: the host-to-agent `Execute` call and the agent-to-host `Register`
//! and `Status` calls.
use vstd::prelude::*;

verus! {

/// One file shipped to the guest workspace.
#[derive(Debug)]
pub struct FileModel {
    pub filename: String,
    pub content: String,
}

/// One shell command the agent is asked to run.
#[derive(Debug)]
pub struct ExecuteRequestStep {
    pub command: String,
    /// Whether the step's stdout is reported back (stderr always is).
    pub enable_output: bool,
}

/// The payload of one `Execute` call.
#[derive(Debug)]
pub struct ExecuteRequest {
    pub id: String,
    pub files: Vec<FileModel>,
    pub steps: Vec<ExecuteRequestStep>,
}

/// The outcome of one step, as reported by the agent.
#[derive(Debug)]
pub struct ExecuteResponseStep {
    pub command: String,
    pub stdout: String,
    pub stderr: String,
    pub exit_code: i32,
}

/// The reply to one `Execute` call.
#[derive(Debug)]
pub struct ExecuteResponse {
    pub id: String,
    pub steps: Vec<ExecuteResponseStep>,
}

/// The status codes an agent may report to the host.
#[derive(Debug, Clone, Copy, PartialEq, Eq, Structural)]
pub enum Code {
    Ready,
    Run,
    Error,
}

/// The reply to an agent's `Register` call: the VM id on success, a message
/// otherwise.
#[derive(Debug)]
pub enum RegisterResponse {
    Id(String),
    Error(String),
}

impl Clone for FileModel {
    /// A clone is equal to the original.
    fn clone(&self) -> (res: Self)
        ensures
            res == *self,
    {
        FileModel { filename: self.filename.clone(), content: self.content.clone() }
    }
}

impl Clone for ExecuteRequestStep {
    /// A clone is equal to the original.
    fn clone(&self) -> (res: Self)
        ensures
            res == *self,
    {
        ExecuteRequestStep { command: self.command.clone(), enable_output: self.enable_output }
    }
}

impl Clone for ExecuteRequest {
    /// A clone carries the same id and the same files and steps.
    fn clone(&self) -> (res: Self)
        ensures
            res.id == self.id,
            res.files@ == self.files@,
            res.steps@ == self.steps@,
    {
        let files = self.files.clone();
        let steps = self.steps.clone();
        proof {
            assert(files@ =~= self.files@);
            assert(steps@ =~= self.steps@);
        }
        ExecuteRequest { id: self.id.clone(), files, steps }
    }
}

impl Clone for ExecuteResponseStep {
    /// A clone is equal to the original.
    fn clone(&self) -> (res: Self)
        ensures
            res == *self,
    {
        ExecuteResponseStep {
            command: self.command.clone(),
            stdout: self.stdout.clone(),
            stderr: self.stderr.clone(),
            exit_code: self.exit_code,
        }
    }
}

impl Clone for ExecuteResponse {
    /// A clone carries the same id and the same step results.
    fn clone(&self) -> (res: Self)
        ensures
            res.id == self.id,
            res.steps@ == self.steps@,
    {
        let steps = self.steps.clone();
        proof {
            assert(steps@ =~= self.steps@);
        }
        ExecuteResponse { id: self.id.clone(), steps }
    }
}

} // verus!
