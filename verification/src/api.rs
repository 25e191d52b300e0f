//! The HTTP-facing aggregation: folding the per-step results of an `Execute`
//! reply into one response body, and mapping scheduler failures onto the
//! fixed error bodies.
use vstd::prelude::*;

use crate::model::RunResponse;
use crate::protocol::{ExecuteResponse, ExecuteResponseStep};
use crate::vmm::Error;

verus! {

/// The stdouts of all steps, concatenated in order. A step whose output was
/// suppressed contributed an empty stdout, so it adds nothing.
pub open spec fn spec_concat_stdout(steps: Seq<ExecuteResponseStep>) -> Seq<char>
    decreases steps.len(),
{
    if steps.len() == 0 {
        Seq::<char>::empty()
    } else {
        spec_concat_stdout(steps.drop_last()) + steps.last().stdout@
    }
}

/// The stderrs of all steps, concatenated in order, unconditionally.
pub open spec fn spec_concat_stderr(steps: Seq<ExecuteResponseStep>) -> Seq<char>
    decreases steps.len(),
{
    if steps.len() == 0 {
        Seq::<char>::empty()
    } else {
        spec_concat_stderr(steps.drop_last()) + steps.last().stderr@
    }
}

/// An exit code narrowed to a byte: itself when it fits, 1 otherwise.
pub open spec fn spec_exit_byte(code: int) -> u8 {
    if 0 <= code <= 255 {
        code as u8
    } else {
        1u8
    }
}

/// Folds an `Execute` reply into the response body: with no steps, status 1
/// and `"Nothing was run"`; otherwise the concatenated stdouts, the
/// concatenated stderrs, and the last step's exit code narrowed to a byte.
pub fn parse_response(response: ExecuteResponse) -> (r: RunResponse)
    ensures
        response.steps@.len() == 0 ==> r.status == 1 && r.stdout@ == Seq::<char>::empty()
            && r.stderr@ == "Nothing was run"@,
        response.steps@.len() > 0 ==> r.status == spec_exit_byte(
            response.steps@.last().exit_code as int,
        ) && r.stdout@ == spec_concat_stdout(response.steps@) && r.stderr@ == spec_concat_stderr(
            response.steps@,
        ),
{
    let n = response.steps.len();
    if n == 0 {
        return RunResponse {
            status: 1,
            stdout: String::new(),
            stderr: String::from_str("Nothing was run"),
        };
    }
    let mut stdout = String::new();
    let mut stderr = String::new();
    let mut k: usize = 0;
    proof {
        assert(response.steps@.subrange(0, 0) =~= Seq::<ExecuteResponseStep>::empty());
    }
    while k < n
        invariant
            n == response.steps@.len(),
            k <= n,
            stdout@ == spec_concat_stdout(response.steps@.subrange(0, k as int)),
            stderr@ == spec_concat_stderr(response.steps@.subrange(0, k as int)),
        decreases n - k,
    {
        let ghost prefix = response.steps@.subrange(0, k as int);
        let step = &response.steps[k];
        stdout.append(step.stdout.as_str());
        stderr.append(step.stderr.as_str());
        proof {
            assert(response.steps@.subrange(0, k + 1).drop_last() =~= prefix);
            assert(response.steps@.subrange(0, k + 1).last() == response.steps@[k as int]);
        }
        k += 1;
    }
    proof {
        assert(response.steps@.subrange(0, n as int) =~= response.steps@);
    }
    let code = response.steps[n - 1].exit_code;
    let status: u8 = if code >= 0 && code <= 255 {
        code as u8
    } else {
        1
    };
    RunResponse { status, stdout, stderr }
}

/// Settles one request from the scheduler's outcome: a reply is folded by
/// [`parse_response`]; a timeout answers `status 128, "Timeout"`; every other
/// failure answers `status 1, "Internal server error"`. Every request gets a
/// response body.
pub fn run_code(outcome: Result<ExecuteResponse, Error>) -> (r: RunResponse)
    ensures
        outcome matches Ok(response) ==> ({
            &&& response.steps@.len() == 0 ==> r.status == 1 && r.stdout@ == Seq::<char>::empty()
                && r.stderr@ == "Nothing was run"@
            &&& response.steps@.len() > 0 ==> r.status == spec_exit_byte(
                response.steps@.last().exit_code as int,
            ) && r.stdout@ == spec_concat_stdout(response.steps@) && r.stderr@
                == spec_concat_stderr(response.steps@)
        }),
        (outcome matches Err(e) && e is Timeout) ==> r.status == 128 && r.stdout@ == Seq::<
            char,
        >::empty() && r.stderr@ == "Timeout"@,
        (outcome matches Err(e) && !(e is Timeout)) ==> r.status == 1 && r.stdout@ == Seq::<
            char,
        >::empty() && r.stderr@ == "Internal server error"@,
{
    match outcome {
        Ok(response) => parse_response(response),
        Err(e) => match e {
            Error::Timeout => RunResponse {
                status: 128,
                stdout: String::new(),
                stderr: String::from_str("Timeout"),
            },
            _ => RunResponse {
                status: 1,
                stdout: String::new(),
                stderr: String::from_str("Internal server error"),
            },
        },
    }
}

} // verus!
