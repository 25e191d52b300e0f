//! The request translator: resolving the language a request names, expanding
//! the language's step templates, and building the `Execute` payload from the
//! request's source files and stdin.
use vstd::prelude::*;

use crate::config::{LambdoConfig, LambdoLanguageConfig};
use crate::model::RunRequest;
use crate::protocol::{ExecuteRequest, ExecuteRequestStep, FileModel};
use crate::text::{replace_filename, spec_replace_filename};

verus! {

/// Two language configurations that carry the same content.
pub open spec fn same_language_config(a: LambdoLanguageConfig, b: LambdoLanguageConfig) -> bool {
    &&& a.name == b.name
    &&& a.version == b.version
    &&& a.initramfs == b.initramfs
    &&& a.steps@ == b.steps@
}

/// The API service: the configuration, and the translation of requests.
pub struct LambdoApiService {
    pub config: LambdoConfig,
}

impl LambdoApiService {
    /// A service over the given configuration.
    pub fn new(config: LambdoConfig) -> (r: Self)
        ensures
            r.config == config,
    {
        LambdoApiService { config }
    }

    /// The first configured language with this name, or `"Language not
    /// found"` when none carries it.
    pub fn find_language(&self, language: &String) -> (r: Result<LambdoLanguageConfig, String>)
        ensures
            r matches Ok(l) ==> (exists|i: int|
                0 <= i < self.config.languages.len() && (#[trigger] self.config.languages@[i]).name@
                    == language@ && (forall|j: int|
                    0 <= j < i ==> (#[trigger] self.config.languages@[j]).name@ != language@)
                    && same_language_config(l, self.config.languages@[i])),
            r matches Err(m) ==> (m@ == "Language not found"@ && (forall|i: int|
                0 <= i < self.config.languages.len() ==> (
                #[trigger] self.config.languages@[i]).name@ != language@)),
    {
        let n = self.config.languages.len();
        let mut k: usize = 0;
        while k < n
            invariant
                n == self.config.languages.len(),
                k <= n,
                forall|j: int|
                    0 <= j < k ==> (#[trigger] self.config.languages@[j]).name@ != language@,
            decreases n - k,
        {
            if self.config.languages[k].name == *language {
                return Ok(self.config.languages[k].clone());
            }
            k += 1;
        }
        Err(String::from_str("Language not found"))
    }

    /// Expands a language's step templates for one request: in every step's
    /// command, each occurrence of `{{filename}}` becomes the entrypoint
    /// filename; whether the step's stdout is reported carries over.
    pub fn generate_steps(
        language_settings: &LambdoLanguageConfig,
        entrypoint: &str,
    ) -> (r: Vec<ExecuteRequestStep>)
        ensures
            r@.len() == language_settings.steps@.len(),
            forall|i: int|
                0 <= i < r@.len() ==> (#[trigger] r@[i]).command@ == spec_replace_filename(
                    language_settings.steps@[i].command@,
                    entrypoint@,
                ) && r@[i].enable_output == language_settings.steps@[i].output.enabled,
    {
        let n = language_settings.steps.len();
        let mut steps: Vec<ExecuteRequestStep> = Vec::new();
        let mut k: usize = 0;
        while k < n
            invariant
                n == language_settings.steps@.len(),
                k <= n,
                steps@.len() == k,
                forall|i: int|
                    0 <= i < k ==> (#[trigger] steps@[i]).command@ == spec_replace_filename(
                        language_settings.steps@[i].command@,
                        entrypoint@,
                    ) && steps@[i].enable_output == language_settings.steps@[i].output.enabled,
            decreases n - k,
        {
            let step = &language_settings.steps[k];
            let command = replace_filename(step.command.as_str(), entrypoint);
            steps.push(ExecuteRequestStep { command, enable_output: step.output.enabled });
            k += 1;
        }
        steps
    }

    /// Builds the `Execute` payload for a request: a fresh id; every source
    /// file of the request, in order, followed by one file `input.input`
    /// holding the stdin payload verbatim; and the resolved language's
    /// expanded steps, the entrypoint being the first source file's name.
    /// Fails exactly when no configured language carries the requested name.
    pub fn build_execute_request(&self, request: &RunRequest) -> (r: Result<
        (ExecuteRequest, LambdoLanguageConfig),
        String,
    >)
        requires
            request.code@.len() >= 1,
        ensures
            r matches Ok(out) ==> ({
                let req = out.0;
                let lang = out.1;
                &&& (exists|i: int|
                    0 <= i < self.config.languages.len() && (
                    #[trigger] self.config.languages@[i]).name@ == request.language@
                        && same_language_config(lang, self.config.languages@[i]))
                &&& req.id@.len() == 36
                &&& req.files@.len() == request.code@.len() + 1
                &&& (forall|i: int|
                    0 <= i < request.code@.len() ==> (#[trigger] req.files@[i]).filename
                        == request.code@[i].filename && req.files@[i].content
                        == request.code@[i].content)
                &&& req.files@.last().filename@ == "input.input"@
                &&& req.files@.last().content == request.input
                &&& req.steps@.len() == lang.steps@.len()
                &&& (forall|i: int|
                    0 <= i < req.steps@.len() ==> (#[trigger] req.steps@[i]).command@
                        == spec_replace_filename(
                        lang.steps@[i].command@,
                        request.code@[0].filename@,
                    ) && req.steps@[i].enable_output == lang.steps@[i].output.enabled)
            }),
            r matches Err(m) ==> (m@ == "Language not found"@ && (forall|i: int|
                0 <= i < self.config.languages.len() ==> (
                #[trigger] self.config.languages@[i]).name@ != request.language@)),
    {
        let entrypoint = request.code[0].filename.clone();
        let language_settings = match self.find_language(&request.language) {
            Ok(l) => l,
            Err(m) => {
                return Err(m);
            },
        };
        let steps = Self::generate_steps(&language_settings, entrypoint.as_str());
        let mut files: Vec<FileModel> = Vec::new();
        let n = request.code.len();
        let mut k: usize = 0;
        while k < n
            invariant
                n == request.code@.len(),
                k <= n,
                files@.len() == k,
                forall|i: int|
                    0 <= i < k ==> (#[trigger] files@[i]).filename == request.code@[i].filename
                        && files@[i].content == request.code@[i].content,
            decreases n - k,
        {
            let source = &request.code[k];
            files.push(
                FileModel { filename: source.filename.clone(), content: source.content.clone() },
            );
            k += 1;
        }
        files.push(
            FileModel {
                filename: String::from_str("input.input"),
                content: request.input.clone(),
            },
        );
        let request_data = ExecuteRequest { id: crate::vm_manager::new_uuid(), files, steps };
        Ok((request_data, language_settings))
    }
}

} // verus!
