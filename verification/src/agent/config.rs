//! The agent's own configuration, and the checks a loaded one must pass.
use vstd::prelude::*;

verus! {

/// Why an agent configuration was rejected.
#[derive(Debug)]
pub enum AgentConfigError {
    /// The file could not be read; the message of the underlying error.
    Load(String),
    /// The text could not be parsed; the message of the underlying error.
    Parse(String),
    /// `kind` is not `AgentConfig`.
    KindNotSupported,
    /// `apiVersion` is not `lambdo.io/v1alpha1`.
    VersionNotSupported,
}

/// The agent's configuration file.
#[derive(Debug)]
#[allow(non_snake_case)]
pub struct AgentConfig {
    /// The api version of the agent config file
    pub apiVersion: String,
    /// The kind of the agent config file
    pub kind: String,
    /// The gRPC configuration
    pub grpc: GRPCConfig,
    /// The workspace where the agent will store the files of requests
    pub workspace_path: String,
}

/// Where the agent listens and where it reports to.
#[derive(Debug)]
pub struct GRPCConfig {
    /// The remote gRPC port
    pub remote_port: u16,
    /// The remote gRPC host
    pub remote_host: String,
    /// The local gRPC port
    pub local_port: u16,
    /// The local gRPC host
    pub local_host: String,
}

/// The remote port used when the configuration names none.
pub fn default_remote_port() -> (r: u16)
    ensures
        r == 50051,
{
    50051
}

/// The local port used when the configuration names none: an ephemeral one.
pub fn default_local_port() -> (r: u16)
    ensures
        r == 0,
{
    0
}

/// The local host used when the configuration names none.
pub fn default_local_host() -> (r: String)
    ensures
        r@ == "0.0.0.0"@,
{
    String::from_str("0.0.0.0")
}

/// The gRPC settings used when the configuration names none: the defaults
/// above, reporting to the given gateway address (the host resolves it from
/// the guest's default route).
pub fn default_grpc(remote_host: String) -> (r: GRPCConfig)
    ensures
        r.remote_port == 50051,
        r.remote_host == remote_host,
        r.local_port == 0,
        r.local_host@ == "0.0.0.0"@,
{
    GRPCConfig {
        remote_port: default_remote_port(),
        remote_host,
        local_port: default_local_port(),
        local_host: default_local_host(),
    }
}

impl AgentConfig {
    /// Accepts a loaded configuration exactly when its kind is `AgentConfig`
    /// and its api version is `lambdo.io/v1alpha1`.
    pub fn validate(&self) -> (r: Result<(), AgentConfigError>)
        ensures
            r is Ok <==> (self.kind@ == "AgentConfig"@ && self.apiVersion@
                == "lambdo.io/v1alpha1"@),
            self.kind@ != "AgentConfig"@ ==> (r matches Err(e) && e is KindNotSupported),
            self.kind@ == "AgentConfig"@ && self.apiVersion@ != "lambdo.io/v1alpha1"@ ==> (
            r matches Err(e) && e is VersionNotSupported),
    {
        let kind = String::from_str("AgentConfig");
        if !(self.kind == kind) {
            return Err(AgentConfigError::KindNotSupported);
        }
        let version = String::from_str("lambdo.io/v1alpha1");
        if !(self.apiVersion == version) {
            return Err(AgentConfigError::VersionNotSupported);
        }
        Ok(())
    }
}

} // verus!
