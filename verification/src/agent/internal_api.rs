//! The agent's inner endpoint around one request. Writing the workspace and
//! spawning commands touch the guest's disk and processes and live with the
//! host plumbing; the message bookkeeping is here.
use vstd::prelude::*;

use crate::agent::model::RequestMessage;

verus! {

/// The inner endpoint: one request under work.
pub struct InternalApi {
    pub request_message: RequestMessage,
}

impl InternalApi {
    /// An endpoint around one request.
    pub fn new(request_message: RequestMessage) -> (r: Self)
        ensures
            r.request_message == request_message,
    {
        Self { request_message }
    }

    /// The fixed log greeting.
    pub fn write_log(&self) -> (r: String)
        ensures
            r@ == "Hello"@,
    {
        String::from_str("Hello")
    }
}

} // verus!
