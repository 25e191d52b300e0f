//! The runner: it owns one `Execute` request and turns the raw outcome of
//! each step's command into the reported step results, suppressing the stdout
//! of steps whose output is disabled. Spawning the commands themselves is
//! host plumbing outside this library; the runner is handed their outcomes.
use vstd::prelude::*;

use crate::api::{spec_concat_stderr, spec_concat_stdout};
use crate::protocol::{ExecuteRequest, ExecuteRequestStep, ExecuteResponse, ExecuteResponseStep};

verus! {

/// A file of the workspace, with the directory it lives in.
#[derive(Debug)]
pub struct FileModel {
    /// The directory of the file, relative to the workspace root
    pub path: String,
    /// The name of the file
    pub file_name: String,
    /// The content of the file
    pub content: String,
}

impl FileModel {
    pub fn new(path: String, file_name: String, content: String) -> (r: Self)
        ensures
            r.path == path,
            r.file_name == file_name,
            r.content == content,
    {
        Self { path, file_name, content }
    }
}

/// What running one command produced.
#[derive(Debug)]
pub struct CodeReturn {
    /// The stdout of the command
    pub stdout: String,
    /// The stderr of the command
    pub stderr: String,
    /// The exit code of the command
    pub exit_code: i32,
}

impl CodeReturn {
    pub fn new(stdout: String, stderr: String, exit_code: i32) -> (r: Self)
        ensures
            r.stdout == stdout,
            r.stderr == stderr,
            r.exit_code == exit_code,
    {
        Self { stdout, stderr, exit_code }
    }
}

/// The runner: one request and the reporting of its steps.
pub struct RunnerEngine {
    pub request_message: ExecuteRequest,
}

impl RunnerEngine {
    /// A runner for one request.
    pub fn new(request_message: ExecuteRequest) -> (r: Self)
        ensures
            r.request_message == request_message,
    {
        Self { request_message }
    }

    /// Reports the steps of the request from the outcome of each step's
    /// command, in order: the command and its stderr and exit code are
    /// carried through; the stdout is carried only for steps whose output is
    /// enabled and is empty otherwise.
    pub fn run(&self, outcomes: &Vec<CodeReturn>) -> (r: ExecuteResponse)
        requires
            outcomes@.len() == self.request_message.steps@.len(),
        ensures
            r.id == self.request_message.id,
            r.steps@.len() == outcomes@.len(),
            forall|i: int|
                0 <= i < r.steps@.len() ==> ({
                    let step = #[trigger] r.steps@[i];
                    &&& step.command == self.request_message.steps@[i].command
                    &&& step.exit_code == outcomes@[i].exit_code
                    &&& step.stderr == outcomes@[i].stderr
                    &&& step.stdout@ == (if self.request_message.steps@[i].enable_output {
                        outcomes@[i].stdout@
                    } else {
                        Seq::<char>::empty()
                    })
                }),
    {
        let n = self.request_message.steps.len();
        let mut steps: Vec<ExecuteResponseStep> = Vec::new();
        let mut k: usize = 0;
        while k < n
            invariant
                n == self.request_message.steps@.len(),
                n == outcomes@.len(),
                k <= n,
                steps@.len() == k,
                forall|i: int|
                    0 <= i < k ==> ({
                        let step = #[trigger] steps@[i];
                        &&& step.command == self.request_message.steps@[i].command
                        &&& step.exit_code == outcomes@[i].exit_code
                        &&& step.stderr == outcomes@[i].stderr
                        &&& step.stdout@ == (if self.request_message.steps@[i].enable_output {
                            outcomes@[i].stdout@
                        } else {
                            Seq::<char>::empty()
                        })
                    }),
            decreases n - k,
        {
            let step = &self.request_message.steps[k];
            let outcome = &outcomes[k];
            let stdout = if step.enable_output {
                outcome.stdout.clone()
            } else {
                String::new()
            };
            steps.push(
                ExecuteResponseStep {
                    command: step.command.clone(),
                    exit_code: outcome.exit_code,
                    stdout,
                    stderr: outcome.stderr.clone(),
                },
            );
            k += 1;
        }
        ExecuteResponse { id: self.request_message.id.clone(), steps }
    }
}

/// The stdouts of the outcomes whose step has its output enabled,
/// concatenated in order.
pub open spec fn spec_enabled_stdouts(
    req_steps: Seq<ExecuteRequestStep>,
    outs: Seq<CodeReturn>,
) -> Seq<char>
    recommends
        req_steps.len() == outs.len(),
    decreases outs.len(),
{
    if outs.len() == 0 {
        Seq::<char>::empty()
    } else {
        spec_enabled_stdouts(req_steps.drop_last(), outs.drop_last()) + (if req_steps.len()
            == outs.len() && req_steps.last().enable_output {
            outs.last().stdout@
        } else {
            Seq::<char>::empty()
        })
    }
}

/// The stderrs of all outcomes, concatenated in order.
pub open spec fn spec_all_stderrs(outs: Seq<CodeReturn>) -> Seq<char>
    decreases outs.len(),
{
    if outs.len() == 0 {
        Seq::<char>::empty()
    } else {
        spec_all_stderrs(outs.drop_last()) + outs.last().stderr@
    }
}

/// The aggregation law: for steps reported as [`RunnerEngine::run`] reports
/// them, the response body's stdout is the concatenation, in order, of the
/// stdouts of exactly the steps whose output is enabled; its stderr is the
/// concatenation of every step's stderr.
pub proof fn lemma_response_aggregation(
    req_steps: Seq<ExecuteRequestStep>,
    outs: Seq<CodeReturn>,
    resp_steps: Seq<ExecuteResponseStep>,
)
    requires
        resp_steps.len() == req_steps.len(),
        outs.len() == req_steps.len(),
        forall|i: int|
            0 <= i < resp_steps.len() ==> ({
                let step = #[trigger] resp_steps[i];
                &&& step.stderr@ == outs[i].stderr@
                &&& step.stdout@ == (if req_steps[i].enable_output {
                    outs[i].stdout@
                } else {
                    Seq::<char>::empty()
                })
            }),
    ensures
        spec_concat_stdout(resp_steps) == spec_enabled_stdouts(req_steps, outs),
        spec_concat_stderr(resp_steps) == spec_all_stderrs(outs),
    decreases outs.len(),
{
    if outs.len() > 0 {
        lemma_response_aggregation(
            req_steps.drop_last(),
            outs.drop_last(),
            resp_steps.drop_last(),
        );
    }
}

} // verus!
