pub mod agent;
pub mod api;
pub mod config;
pub mod grpc_server;
pub mod model;
pub mod net;
pub mod protocol;
pub mod service;
pub mod state;
pub mod text;
pub mod vm_manager;
pub mod vmm;

use vstd::prelude::*;

verus! {

/// Top-level error of the control plane.
#[derive(Debug)]
pub enum LambdoError {
    /// Any error carried as a message.
    Other(String),
    /// An error of unknown origin.
    Unknown,
}

} // verus!
