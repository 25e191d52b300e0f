//! The immutable configuration the control plane is started with, and the
//! checks a loaded configuration must pass.
use vstd::prelude::*;

verus! {

/// Why a configuration was rejected.
#[derive(Debug)]
pub enum LambdoConfigError {
    /// The file could not be read; the message of the underlying error.
    Load(String),
    /// The text could not be parsed; the message of the underlying error.
    Parse(String),
    /// `kind` is not `Config`.
    KindNotSupported,
    /// `apiVersion` is not `lambdo.io/v1alpha1`.
    VersionNotSupported,
}

/// The whole configuration file.
#[derive(Debug)]
#[allow(non_snake_case)]
pub struct LambdoConfig {
    /// The api version of the lambdo config file
    pub apiVersion: String,
    /// The kind of the lambdo config file
    pub kind: String,
    /// The lambdo vmm configuration
    pub vmm: LambdoVMMConfig,
    /// The lambdo api configuration
    pub api: LambdoApiConfig,
    /// The lambdo agent configuration
    pub agent: LambdoAgentConfig,
    /// The lambdo languages configuration
    pub languages: Vec<LambdoLanguageConfig>,
}

/// Options handed to the microVM monitor.
#[derive(Debug)]
pub struct LambdoVMMConfig {
    /// The kernel path to use for the vmm
    pub kernel: String,
}

/// Listen addresses and host bridge settings.
#[derive(Debug)]
pub struct LambdoApiConfig {
    /// The host on which the HTTP server will listen
    pub web_host: String,
    /// The port on which the HTTP server will listen
    pub web_port: u16,
    /// The host on which the gRPC server will listen
    pub grpc_host: String,
    /// The port on which the gRPC server will listen
    pub gprc_port: u16,
    /// Bridge to bind to
    pub bridge: String,
    /// Address of the bridge
    pub bridge_address: String,
}

/// Where the agent binary and its configuration live.
#[derive(Debug)]
pub struct LambdoAgentConfig {
    /// The path to the agent binary
    pub path: String,
    /// The path to the agent configuration file
    pub config: String,
}

/// One language runtime: its initramfs and the steps run for a request.
#[derive(Debug)]
pub struct LambdoLanguageConfig {
    /// The name of the language
    pub name: String,
    /// The version of the language
    pub version: String,
    /// The initramfs path to use for the language
    pub initramfs: String,
    /// The steps to execute
    pub steps: Vec<LambdoLanguageStepConfig>,
}

/// One step of a language's recipe.
#[derive(Debug)]
pub struct LambdoLanguageStepConfig {
    /// The name of the step
    pub name: Option<String>,
    /// The command to execute
    pub command: String,
    /// The output configuration
    pub output: LambdoLanguageStepOutputConfig,
}

/// Whether a step's stdout is reported, and whether it is debug output.
#[derive(Debug)]
pub struct LambdoLanguageStepOutputConfig {
    /// Is the output enabled ?
    pub enabled: bool,
    /// Is the output a debug output ?
    pub debug: bool,
}

/// The bridge name used when the configuration names none.
pub fn default_bridge() -> (r: String)
    ensures
        r@ == "lambdo0"@,
{
    String::from_str("lambdo0")
}

/// The bridge address used when the configuration names none.
pub fn default_bridge_address() -> (r: String)
    ensures
        r@ == "192.168.10.1/24"@,
{
    String::from_str("192.168.10.1/24")
}

impl LambdoConfig {
    /// Accepts a loaded configuration exactly when its kind is `Config` and
    /// its api version is `lambdo.io/v1alpha1`.
    pub fn validate(&self) -> (r: Result<(), LambdoConfigError>)
        ensures
            r is Ok <==> (self.kind@ == "Config"@ && self.apiVersion@ == "lambdo.io/v1alpha1"@),
            self.kind@ != "Config"@ ==> (r matches Err(e) && e is KindNotSupported),
            self.kind@ == "Config"@ && self.apiVersion@ != "lambdo.io/v1alpha1"@ ==> (
            r matches Err(e) && e is VersionNotSupported),
    {
        let kind = String::from_str("Config");
        if !(self.kind == kind) {
            return Err(LambdoConfigError::KindNotSupported);
        }
        let version = String::from_str("lambdo.io/v1alpha1");
        if !(self.apiVersion == version) {
            return Err(LambdoConfigError::VersionNotSupported);
        }
        Ok(())
    }
}

impl Clone for LambdoLanguageStepOutputConfig {
    /// A clone is equal to the original.
    fn clone(&self) -> (res: Self)
        ensures
            res == *self,
    {
        LambdoLanguageStepOutputConfig { enabled: self.enabled, debug: self.debug }
    }
}

impl Clone for LambdoLanguageStepConfig {
    /// A clone is equal to the original.
    fn clone(&self) -> (res: Self)
        ensures
            res == *self,
    {
        LambdoLanguageStepConfig {
            name: self.name.clone(),
            command: self.command.clone(),
            output: self.output.clone(),
        }
    }
}

impl Clone for LambdoLanguageConfig {
    /// A clone carries the same name, version, initramfs and steps.
    fn clone(&self) -> (res: Self)
        ensures
            res.name == self.name,
            res.version == self.version,
            res.initramfs == self.initramfs,
            res.steps@ == self.steps@,
    {
        let steps = self.steps.clone();
        proof {
            assert(steps@ =~= self.steps@);
        }
        LambdoLanguageConfig {
            name: self.name.clone(),
            version: self.version.clone(),
            initramfs: self.initramfs.clone(),
            steps,
        }
    }
}

} // verus!
