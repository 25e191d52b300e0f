//! Decisions of the agent-facing control-plane server. The host resolves the
//! caller's source IP and hands the plain values here: `register` answers an
//! agent's `Register` call, `status` answers its `Status` call. The transport
//! around them lives with the host.
use vstd::prelude::*;

use crate::protocol::{Code, RegisterResponse};
use crate::state::{status_rank, LambdoState, VMState, VMStatus};
use crate::vmm::Error;

verus! {

/// A record answers a `Register` from this caller IP while it is not `Ended`.
pub open spec fn ip_match(vm: VMState, a: u32) -> bool {
    vm.status() != VMStatus::Ended && vm.ip_addr() == Some(a)
}

/// How many records answer for this caller IP.
pub open spec fn count_ip_matches(vms: Seq<VMState>, a: u32) -> nat
    decreases vms.len(),
{
    if vms.len() == 0 {
        0nat
    } else {
        count_ip_matches(vms.drop_last(), a) + (if ip_match(vms.last(), a) {
            1nat
        } else {
            0nat
        })
    }
}

/// Answers an agent's `Register` call, the caller resolved to `caller_ip`:
/// with exactly one live record on that IP, its agent port is stored and its
/// id is returned; with none, or with several (an allocator fault), an error
/// message is returned and nothing changes. A port that exceeds 65535 cannot
/// be dialled: that one record is ended and an error is returned.
pub fn register(state: &mut LambdoState, caller_ip: u32, port: u32) -> (r: RegisterResponse)
    requires
        old(state).wf(),
    ensures
        final(state).wf(),
        final(state).config == old(state).config,
        count_ip_matches(old(state).vms@, caller_ip) == 0 ==> (r matches RegisterResponse::Error(m)
            && m@ == "No VM found for this IP"@ && final(state).vms@ == old(state).vms@
            && final(state).events == old(state).events),
        count_ip_matches(old(state).vms@, caller_ip) > 1 ==> (r matches RegisterResponse::Error(m)
            && m@ == "Multiple VM found for this IP"@ && final(state).vms@ == old(state).vms@
            && final(state).events == old(state).events),
        count_ip_matches(old(state).vms@, caller_ip) == 1 && port <= u16::MAX ==> (r matches
            RegisterResponse::Id(id) && final(state).events == old(state).events && (exists|i: int|
            0 <= i < old(state).vms.len() && ip_match(#[trigger] old(state).vms@[i], caller_ip)
                && id == old(state).vms@[i].id && (forall|j: int|
                0 <= j < old(state).vms.len() && j != i ==> final(state).vms@[j] == old(state).vms@[j]) && ({
                let pre = old(state).vms@[i];
                let post = final(state).vms@[i];
                &&& post.id == pre.id
                &&& post.vm_opts == pre.vm_opts
                &&& post.language_settings == pre.language_settings
                &&& post.request == pre.request
                &&& post.response == pre.response
                &&& post.status() == pre.status()
                &&& post.connected() == pre.connected()
                &&& post.reserved == pre.reserved
                &&& post.port() == Some(port as u16)
            }))),
        count_ip_matches(old(state).vms@, caller_ip) == 1 && port > u16::MAX ==> (r matches
            RegisterResponse::Error(m) && m@ == "Failed to register VM"@ && (exists|i: int|
            0 <= i < old(state).vms.len() && ip_match(#[trigger] old(state).vms@[i], caller_ip)
                && final(state).vms@[i].status() == VMStatus::Ended && (forall|j: int|
                0 <= j < old(state).vms.len() && j != i ==> final(state).vms@[j] == old(state).vms@[j]) && final(state).events@ == old(state).events@.push(
                (crate::state::VMEvent {
                    id: old(state).vms@[i].id,
                    status: VMStatus::Ended,
                }),
            ))),
        crate::state::statuses_monotonic(old(state).vms@, final(state).vms@),
{
    let n = state.vms.len();
    let mut found: Option<usize> = None;
    let mut hits: usize = 0;
    let mut k: usize = 0;
    proof {
        assert(state.vms@.subrange(0, 0) =~= Seq::<VMState>::empty());
    }
    while k < n
        invariant
            n == state.vms.len(),
            k <= n,
            hits == count_ip_matches(state.vms@.subrange(0, k as int), caller_ip),
            hits <= k,
            hits > 0 <==> found is Some,
            found matches Some(i) ==> i < k && ip_match(state.vms@[i as int], caller_ip),
        decreases n - k,
    {
        let ghost prefix = state.vms@.subrange(0, k as int);
        let vm = &state.vms[k];
        let hit = match vm.vm_opts.ip {
            Some(ipn) => vm.get_state() != VMStatus::Ended && ipn.address == caller_ip,
            None => false,
        };
        if hit {
            if found.is_none() {
                found = Some(k);
            }
            hits += 1;
        }
        proof {
            assert(state.vms@.subrange(0, k + 1).drop_last() =~= prefix);
            assert(state.vms@.subrange(0, k + 1).last() == state.vms@[k as int]);
        }
        k += 1;
    }
    proof {
        assert(state.vms@.subrange(0, n as int) =~= state.vms@);
    }
    if hits == 0 {
        return RegisterResponse::Error(String::from_str("No VM found for this IP"));
    }
    if hits > 1 {
        return RegisterResponse::Error(String::from_str("Multiple VM found for this IP"));
    }
    let i = match found {
        Some(i) => i,
        None => {
            return RegisterResponse::Error(String::from_str("No VM found for this IP"));
        },
    };
    let id = state.vms[i].id.clone();
    match state.register(i, port) {
        Ok(_) => RegisterResponse::Id(id),
        Err(_) => RegisterResponse::Error(String::from_str("Failed to register VM")),
    }
}

/// What the host does after a `Status` call was answered: dial the agent of
/// record `i` at `address` (attaching the client on success, ending the
/// record on failure), or nothing.
pub enum StatusAction {
    Dial { index: usize, address: String },
    Nothing,
}

/// Answers an agent's `Status` call. An unknown id is `VmNotFound`. On
/// `Ready` nothing changes yet: the host is handed the order to dial the
/// agent of a record still `Waiting` whose port and address are known; after
/// a successful dial the host calls [`LambdoState::ready`], which moves the
/// record to `Ready`, attaches the client and publishes the event — only
/// then, after the dial. A stale or premature `Ready` yields no order. On
/// `Error` the record is ended. `Run` is informational only.
pub fn status(state: &mut LambdoState, id: &String, code: Code) -> (r: Result<StatusAction, Error>)
    requires
        old(state).wf(),
    ensures
        final(state).wf(),
        final(state).config == old(state).config,
        (forall|i: int|
            0 <= i < old(state).vms.len() ==> (#[trigger] old(state).vms@[i]).id@ != id@) ==> (
        r matches Err(e) && e is VmNotFound && final(state).vms@ == old(state).vms@ && final(state).events == old(state).events),
        code is Ready ==> final(state).vms@ == old(state).vms@ && final(state).events == old(state).events,
        r matches Ok(a) ==> (a matches StatusAction::Dial { index, address } ==> (index < old(state).vms.len() && old(state).vms@[index as int].id@ == id@ && old(state).vms@[index as int].status() == VMStatus::Waiting && (
        old(state).vms@[index as int].port() matches Some(p)
            && old(state).vms@[index as int].ip_addr() matches Some(ip)
            && address@ == crate::net::spec_dial_address(ip, p)))),
        code is Ready && (exists|i: int|
            0 <= i < old(state).vms.len() && (#[trigger] old(state).vms@[i]).id@ == id@
                && old(state).vms@[i].port() is Some && old(state).vms@[i].ip_addr() is Some
                && old(state).vms@[i].status() == VMStatus::Waiting) ==> (r matches Ok(a) && a
            is Dial),
        code is Error ==> (forall|i: int|
            0 <= i < final(state).vms.len() && (#[trigger] final(state).vms@[i]).id@ == id@
                ==> final(state).vms@[i].status() == VMStatus::Ended),
        code is Error && (exists|i: int|
            0 <= i < old(state).vms.len() && (#[trigger] old(state).vms@[i]).id@ == id@) ==> ((
        exists|i: int|
            0 <= i < old(state).vms.len() && (#[trigger] old(state).vms@[i]).id@ == id@ && (
            if old(state).vms@[i].status() != VMStatus::Ended {
                final(state).events@ == old(state).events@.push(
                    (crate::state::VMEvent {
                        id: old(state).vms@[i].id,
                        status: VMStatus::Ended,
                    }),
                )
            } else {
                final(state).events == old(state).events
            })) && (forall|j: int|
            0 <= j < old(state).vms.len() && (#[trigger] old(state).vms@[j]).id@ != id@ ==> final(state).vms@[j] == old(state).vms@[j])),
        code is Run ==> final(state).vms@ == old(state).vms@
            && final(state).events == old(state).events,
        crate::state::statuses_monotonic(old(state).vms@, final(state).vms@),
{
    let i = match state.find_vm(id) {
        Some(i) => i,
        None => {
            return Err(Error::VmNotFound);
        },
    };
    match code {
        Code::Ready => {
            let vm = &state.vms[i];
            if vm.get_state() != VMStatus::Waiting {
                return Ok(StatusAction::Nothing);
            }
            let a = match vm.vm_opts.ip {
                Some(n) => n.address,
                None => {
                    return Ok(StatusAction::Nothing);
                },
            };
            let p = match vm.remote_port {
                Some(p) => p,
                None => {
                    return Ok(StatusAction::Nothing);
                },
            };
            Ok(StatusAction::Dial { index: i, address: crate::net::dial_address(a, p) })
        },
        Code::Error => {
            state.mark_ended(i);
            proof {
                assert(forall|j: int|
                    0 <= j < final(state).vms.len() && (#[trigger] final(state).vms@[j]).id@ == id@
                        ==> j == i);
            }
            Ok(StatusAction::Nothing)
        },
        Code::Run => Ok(StatusAction::Nothing),
    }
}

} // verus!
