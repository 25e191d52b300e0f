//! The agent's message model on the serial line: status, request and
//! response envelopes, and the files and steps they carry.
use vstd::prelude::*;

verus! {

/// A file to be placed in the guest workspace.
#[derive(Debug)]
pub struct FileModel {
    /// Name of the file, paths relative to the workspace
    pub filename: String,
    /// Content of the file
    pub content: String,
}

/// A plain batch of files and startup commands.
#[derive(Debug)]
pub struct CodeEntry {
    pub files: Vec<FileModel>,
    /// All commands to execute at startup
    pub script: Vec<String>,
}

/// Identifies the type of the message.
#[derive(Debug, Clone, Copy, PartialEq, Eq, Structural)]
pub enum Type {
    /// Status message to indicate that the agent is ready
    Status,
    /// Request message
    Request,
    /// Response message answering to a request message
    Response,
}

/// Code to tell what the Request/Response message is about.
#[derive(Debug, Clone, Copy, PartialEq, Eq, Structural)]
pub enum Code {
    /// Represents a request to run the code or a response to such request
    Run,
    /// Agent is ready to communicate
    Ready,
}

/// A status message: the agent reports its own state.
#[derive(Debug)]
pub struct StatusMessage {
    /// Type of the message
    pub kind: Type,
    /// Code of the message
    pub code: Code,
}

impl StatusMessage {
    pub fn new(code: Code) -> (r: StatusMessage)
        ensures
            r.kind == Type::Status,
            r.code == code,
    {
        StatusMessage { kind: Type::Status, code }
    }
}

/// The output of one step.
#[derive(Debug)]
pub struct ResponseStep {
    /// Command that was run
    pub command: String,
    /// Exit code of the command
    pub exit_code: i32,
    /// Stdout of the command; absent when the step's output was suppressed
    pub stdout: Option<String>,
    /// Stderr of the command
    pub stderr: String,
}

impl ResponseStep {
    pub fn new(command: String, exit_code: i32, stdout: Option<String>, stderr: String) -> (r:
        ResponseStep)
        ensures
            r.command == command,
            r.exit_code == exit_code,
            r.stdout == stdout,
            r.stderr == stderr,
    {
        ResponseStep { command, exit_code, stdout, stderr }
    }
}

/// The id of a request and the result of all its steps.
#[derive(Debug)]
pub struct ResponseData {
    /// Id of the request (UUID)
    pub id: String,
    /// Result of all steps
    pub steps: Vec<ResponseStep>,
}

impl ResponseData {
    pub fn new(id: String, steps: Vec<ResponseStep>) -> (r: ResponseData)
        ensures
            r.id == id,
            r.steps == steps,
    {
        ResponseData { id, steps }
    }
}

/// A response to a run request.
#[derive(Debug)]
pub struct ResponseMessage {
    /// Type of the message
    pub kind: Type,
    /// Code of the message
    pub code: Code,
    /// Data of the message
    pub data: ResponseData,
}

impl ResponseMessage {
    pub fn new(data: ResponseData) -> (r: ResponseMessage)
        ensures
            r.kind == Type::Response,
            r.code == Code::Run,
            r.data == data,
    {
        ResponseMessage { kind: Type::Response, code: Code::Run, data }
    }
}

/// One step of a run request.
#[derive(Debug)]
pub struct RequestStep {
    /// Command to run
    pub command: String,
    /// Whether the stdout should be returned or not (stderr always will be)
    pub enable_output: bool,
}

/// The payload of a run request.
#[derive(Debug)]
pub struct RequestData {
    /// Id of the request (UUID)
    pub id: String,
    /// Files to be included in the workspace, paths relative to the workspace
    pub files: Vec<FileModel>,
    /// Steps to be executed
    pub steps: Vec<RequestStep>,
}

impl RequestData {
    pub fn new(id: String, files: Vec<FileModel>, steps: Vec<RequestStep>) -> (r: RequestData)
        ensures
            r.id == id,
            r.files == files,
            r.steps == steps,
    {
        RequestData { id, files, steps }
    }
}

/// A run request.
#[derive(Debug)]
pub struct RequestMessage {
    /// Type of the message
    pub kind: Type,
    /// Code of the message
    pub code: Code,
    /// Data of the message
    pub data: RequestData,
}

impl RequestMessage {
    pub fn new(data: RequestData) -> (r: RequestMessage)
        ensures
            r.kind == Type::Request,
            r.code == Code::Run,
            r.data == data,
    {
        RequestMessage { kind: Type::Request, code: Code::Run, data }
    }
}

} // verus!
