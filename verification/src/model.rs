//! The HTTP-facing request and response bodies, the per-language settings the
//! scheduler carries around, and the legacy serial-agent execution envelope.
use vstd::prelude::*;

verus! {

/// One source file of a run request.
#[derive(Debug)]
pub struct File {
    pub filename: String,
    pub content: String,
}

/// The body of a `POST /run` request.
#[derive(Debug)]
pub struct RunRequest {
    pub language: String,
    pub version: String,
    pub input: String,
    pub code: Vec<File>,
}

/// The body of a `POST /run` reply.
#[derive(Debug)]
pub struct RunResponse {
    pub status: u8,
    pub stdout: String,
    pub stderr: String,
}

/// What the scheduler needs to know of a language: its key and its initramfs.
#[derive(Debug)]
pub struct LanguageSettings {
    pub name: String,
    pub version: String,
    pub initramfs: String,
}

impl From<crate::config::LambdoLanguageConfig> for LanguageSettings {
    fn from(c: crate::config::LambdoLanguageConfig) -> (r: Self) {
        LanguageSettings { name: c.name, version: c.version, initramfs: c.initramfs }
    }
}

impl vstd::std_specs::convert::FromSpecImpl<crate::config::LambdoLanguageConfig> for LanguageSettings {
    open spec fn obeys_from_spec() -> bool {
        true
    }

    open spec fn from_spec(c: crate::config::LambdoLanguageConfig) -> Self {
        LanguageSettings { name: c.name, version: c.version, initramfs: c.initramfs }
    }
}

/// An execution order in the envelope of the serial agent protocol.
#[derive(Debug)]
pub struct AgentExecution {
    pub kind: String,
    pub code: String,
    pub data: AgentExecutionData,
}

/// The payload of an [`AgentExecution`].
#[derive(Debug)]
pub struct AgentExecutionData {
    pub id: String,
    pub steps: Vec<AgentExecutionStep>,
    pub files: Vec<AgentExecutionFile>,
}

/// One command of an [`AgentExecution`].
#[derive(Debug)]
pub struct AgentExecutionStep {
    pub command: String,
    pub enable_output: bool,
}

/// One file of an [`AgentExecution`].
#[derive(Debug)]
pub struct AgentExecutionFile {
    pub filename: String,
    pub content: String,
}

impl AgentExecution {
    /// An empty execution order.
    pub fn new() -> (r: Self)
        ensures
            r.kind@ == Seq::<char>::empty(),
            r.code@ == Seq::<char>::empty(),
            r.data.id@ == Seq::<char>::empty(),
            r.data.steps@ == Seq::<AgentExecutionStep>::empty(),
            r.data.files@ == Seq::<AgentExecutionFile>::empty(),
    {
        AgentExecution {
            kind: String::new(),
            code: String::new(),
            data: AgentExecutionData { id: String::new(), steps: Vec::new(), files: Vec::new() },
        }
    }

    /// Appends one step.
    pub fn add_step(&mut self, step: AgentExecutionStep)
        ensures
            final(self).data.steps@ == old(self).data.steps@.push(step),
            final(self).data.files@ == old(self).data.files@,
            final(self).data.id == old(self).data.id,
            final(self).kind == old(self).kind,
            final(self).code == old(self).code,
    {
        self.data.steps.push(step);
    }

    /// Appends one file.
    pub fn add_file(&mut self, file: AgentExecutionFile)
        ensures
            final(self).data.files@ == old(self).data.files@.push(file),
            final(self).data.steps@ == old(self).data.steps@,
            final(self).data.id == old(self).data.id,
            final(self).kind == old(self).kind,
            final(self).code == old(self).code,
    {
        self.data.files.push(file);
    }
}

impl AgentExecutionStep {
    pub fn new(command: String, enable_output: bool) -> (r: Self)
        ensures
            r.command == command,
            r.enable_output == enable_output,
    {
        AgentExecutionStep { command, enable_output }
    }
}

impl AgentExecutionFile {
    pub fn new(filename: String, content: String) -> (r: Self)
        ensures
            r.filename == filename,
            r.content == content,
    {
        AgentExecutionFile { filename, content }
    }
}

impl Clone for File {
    /// A clone is equal to the original.
    fn clone(&self) -> (res: Self)
        ensures
            res == *self,
    {
        File { filename: self.filename.clone(), content: self.content.clone() }
    }
}

impl Clone for LanguageSettings {
    /// A clone is equal to the original.
    fn clone(&self) -> (res: Self)
        ensures
            res == *self,
    {
        LanguageSettings {
            name: self.name.clone(),
            version: self.version.clone(),
            initramfs: self.initramfs.clone(),
        }
    }
}

} // verus!
