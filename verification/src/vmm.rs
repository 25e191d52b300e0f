//! Options a microVM is started with, and the error taxonomy of the control
//! plane. Starting the VM itself is host plumbing outside this library; the
//! library only builds the options and tracks the outcome.
use vstd::prelude::*;

verus! {

/// An IPv4 address with a prefix length, as plain numbers. The address is the
/// big-endian value of the four octets; `prefix` is at most 32.
#[derive(Debug, Clone, Copy, PartialEq, Eq, Structural)]
pub struct Ipv4Net {
    pub address: u32,
    pub prefix: u8,
}

/// Everything the control plane decides about one microVM before it boots.
#[derive(Debug)]
pub struct VMMOpts {
    /// Linux kernel path
    pub kernel: String,
    /// Number of virtual CPUs assigned to the guest
    pub cpus: u8,
    /// Memory amount (in MBytes) assigned to the guest
    pub memory: u32,
    /// Stdout console file path
    pub console: Option<String>,
    /// Path to the socket used for communication with the VMM
    pub socket: Option<String>,
    /// initramfs path
    pub initramfs: Option<String>,
    /// Tap interface name
    pub tap: Option<String>,
    /// Guest IP address within the bridge network
    pub ip: Option<Ipv4Net>,
    /// Gateway (the bridge's address), in dotted notation
    pub gateway: Option<String>,
}

/// Everything that can go wrong between accepting a request and answering it.
#[derive(Debug)]
pub enum Error {
    /// The microVM monitor could not be created; its message.
    VmmNew(String),
    /// The microVM monitor rejected its configuration; its message.
    VmmConfigure(String),
    /// The microVM exited with a failure; its message.
    VmmRun(String),
    /// The host bridge could not be set up; the message of the cause.
    NetSetupError(String),
    /// An agent call arrived that no record can answer.
    BadAgentStatus,
    /// Every address of the bridge network is taken.
    NoIPAvalaible,
    /// No record matches the given id.
    VmNotFound,
    /// The chosen record reached `Ended` before the request could run.
    VmAlreadyEnded,
    /// The control-plane call itself failed.
    GrpcError,
    /// The `Execute` call failed.
    ExecutionError,
    /// The `Execute` call did not answer within the deadline.
    Timeout,
}

impl Clone for VMMOpts {
    /// A clone is equal to the original.
    fn clone(&self) -> (res: Self)
        ensures
            res == *self,
    {
        VMMOpts {
            kernel: self.kernel.clone(),
            cpus: self.cpus,
            memory: self.memory,
            console: self.console.clone(),
            socket: self.socket.clone(),
            initramfs: self.initramfs.clone(),
            tap: self.tap.clone(),
            ip: self.ip,
            gateway: self.gateway.clone(),
        }
    }
}

} // verus!
