//! The fleet registry: one record per microVM, the per-record lifecycle state
//! machine, and the log of status events that the broadcast bus publishes.
//!
//! Every mutation goes through the methods here. They keep the registry
//! well formed ([`LambdoState::wf`]): ids are unique, no two live records
//! share a guest IP, and a record's status only ever moves forward on the
//! track `Waiting -> Ready -> Running -> Ended`. Each successful transition
//! appends exactly one event to [`LambdoState::events`].
use vstd::prelude::*;

use crate::config::LambdoConfig;
use crate::model::LanguageSettings;
use crate::protocol::{ExecuteRequest, ExecuteResponse};
use crate::vmm::{Error, VMMOpts};

verus! {

/// Status of one microVM, from boot to reaping. Only forward movement is
/// allowed: `Waiting -> Ready -> Running -> Ended`, and `Ended` is terminal.
#[derive(Debug, Clone, Copy, PartialEq, Eq, Structural)]
pub enum VMStatus {
    Waiting,
    Ready,
    Running,
    Ended,
}

/// Position of a status on the one-way lifecycle track.
pub open spec fn status_rank(s: VMStatus) -> int {
    match s {
        VMStatus::Waiting => 0,
        VMStatus::Ready => 1,
        VMStatus::Running => 2,
        VMStatus::Ended => 3,
    }
}

/// The lifecycle position of a status, for runtime transition checks.
pub fn rank_of(s: VMStatus) -> (r: u8)
    ensures
        r as int == status_rank(s),
{
    match s {
        VMStatus::Waiting => 0,
        VMStatus::Ready => 1,
        VMStatus::Running => 2,
        VMStatus::Ended => 3,
    }
}

/// One entry of the status broadcast: a record moved to `status`.
#[derive(Debug)]
pub struct VMEvent {
    pub id: String,
    pub status: VMStatus,
}

/// One record of the fleet: everything the control plane knows of one microVM.
#[derive(Debug)]
pub struct VMState {
    /// The record's UUID; never changes.
    pub id: String,
    /// The record's place on the lifecycle track; moved only by
    /// [`LambdoState::transition`] and the methods built on it.
    pub state: VMStatus,
    /// The options the microVM was started with, the assigned guest IP among
    /// them; never change.
    pub vm_opts: VMMOpts,
    /// The language this VM serves; never changes.
    pub language_settings: LanguageSettings,
    /// The request dispatched to this VM, once there is one.
    pub request: Option<ExecuteRequest>,
    /// The agent's reply, once there is one.
    pub response: Option<ExecuteResponse>,
    /// The agent port stored by `Register`, once it arrived.
    pub remote_port: Option<u16>,
    /// Whether an agent client is attached (dialled successfully).
    pub client_connected: bool,
    /// True iff the record was created for one specific pending request.
    pub reserved: bool,
}

impl VMState {
    /// The record's place on the lifecycle track.
    pub open spec fn status(&self) -> VMStatus {
        self.state
    }

    /// The agent port stored by `Register`, if it arrived.
    pub open spec fn port(&self) -> Option<u16> {
        self.remote_port
    }

    /// Whether an agent client is attached (dialled successfully).
    pub open spec fn connected(&self) -> bool {
        self.client_connected
    }

    /// The guest IPv4 address, as a number.
    pub open spec fn ip_addr(&self) -> Option<u32> {
        match self.vm_opts.ip {
            Some(n) => Some(n.address),
            None => None,
        }
    }

    /// A client is attached only while the record is `Ready` or `Running`.
    pub open spec fn wf(&self) -> bool {
        self.connected() ==> (self.status() == VMStatus::Ready || self.status()
            == VMStatus::Running)
    }

    /// A fresh record: `Waiting`, no port, no client, nothing run yet.
    pub fn new(
        id: String,
        vm_opts: VMMOpts,
        language_config: LanguageSettings,
        reserved: bool,
    ) -> (r: Self)
        ensures
            r.id == id,
            r.vm_opts == vm_opts,
            r.language_settings == language_config,
            r.status() == VMStatus::Waiting,
            r.request is None,
            r.response is None,
            r.port() is None,
            !r.connected(),
            r.reserved == reserved,
            r.wf(),
    {
        VMState {
            id,
            state: VMStatus::Waiting,
            vm_opts,
            language_settings: language_config,
            request: None,
            response: None,
            remote_port: None,
            client_connected: false,
            reserved,
        }
    }

    /// The current status.
    pub fn get_state(&self) -> (r: VMStatus)
        ensures
            r == self.status(),
    {
        self.state
    }
}

/// How a record looks after it moved to `status`: every other field is kept,
/// and the attached client is dropped when the record ends.
pub open spec fn steps_to(pre: VMState, post: VMState, status: VMStatus) -> bool {
    &&& post.id == pre.id
    &&& post.vm_opts == pre.vm_opts
    &&& post.language_settings == pre.language_settings
    &&& post.request == pre.request
    &&& post.response == pre.response
    &&& post.port() == pre.port()
    &&& post.reserved == pre.reserved
    &&& post.status() == status
    &&& post.connected() == (if status is Ended {
        false
    } else {
        pre.connected()
    })
}

/// A record of the fleet answers for address `a` while it is not `Ended`.
pub open spec fn in_use(vms: Seq<VMState>, a: u32) -> bool {
    exists|i: int|
        0 <= i < vms.len() && (#[trigger] vms[i]).status() != VMStatus::Ended && vms[i].ip_addr()
            == Some(a)
}

/// Whether a record can serve a request of this language right now.
pub open spec fn ready_match(vm: VMState, lang: LanguageSettings) -> bool {
    &&& vm.status() == VMStatus::Ready
    &&& !vm.reserved
    &&& vm.language_settings.name@ == lang.name@
    &&& vm.language_settings.version@ == lang.version@
}

/// No record's status moved backward between two snapshots of the fleet.
pub open spec fn statuses_monotonic(pre: Seq<VMState>, post: Seq<VMState>) -> bool {
    &&& post.len() >= pre.len()
    &&& forall|i: int|
        0 <= i < pre.len() ==> status_rank((#[trigger] post[i]).status()) >= status_rank(
            pre[i].status(),
        )
}

/// The fleet registry plus the log of events the broadcast bus carries.
pub struct LambdoState {
    /// All records ever created, in insertion order; `Ended` ones stay.
    pub vms: Vec<VMState>,
    /// The configuration the control plane was started with.
    pub config: LambdoConfig,
    /// Every published `(id, status)` event, oldest first. The host drains
    /// this log into the broadcast channel after each call under the lock.
    pub events: Vec<VMEvent>,
}

impl LambdoState {
    /// Every record keeps its own invariant.
    pub open spec fn vms_wf(&self) -> bool {
        forall|i: int| 0 <= i < self.vms.len() ==> (#[trigger] self.vms@[i]).wf()
    }

    /// No two records share an id.
    pub open spec fn ids_unique(&self) -> bool {
        forall|i: int, j: int|
            0 <= i < j < self.vms.len() ==> (#[trigger] self.vms@[i]).id@ != (
            #[trigger] self.vms@[j]).id@
    }

    /// No two records that are not `Ended` share a guest IP.
    pub open spec fn ips_unique(&self) -> bool {
        forall|i: int, j: int|
            0 <= i < j < self.vms.len() && (#[trigger] self.vms@[i]).status() != VMStatus::Ended
                && (#[trigger] self.vms@[j]).status() != VMStatus::Ended && self.vms@[i].ip_addr()
                is Some ==> self.vms@[i].ip_addr() != self.vms@[j].ip_addr()
    }

    /// The registry invariant every method preserves.
    pub open spec fn wf(&self) -> bool {
        self.vms_wf() && self.ids_unique() && self.ips_unique()
    }

    /// An empty fleet around the given configuration.
    pub fn new(config: LambdoConfig) -> (r: Self)
        ensures
            r.vms@ == Seq::<VMState>::empty(),
            r.events@ == Seq::<VMEvent>::empty(),
            r.config == config,
            r.wf(),
    {
        LambdoState { vms: Vec::new(), config, events: Vec::new() }
    }

    /// The first record, in insertion order, that can serve this language:
    /// `Ready`, not reserved, same name and version.
    pub fn find_ready_vms(&self, lang: &LanguageSettings) -> (r: Option<usize>)
        ensures
            r matches Some(i) ==> i < self.vms.len() && ready_match(self.vms@[i as int], *lang)
                && (forall|j: int| 0 <= j < i ==> !ready_match(self.vms@[j], *lang)),
            r is None ==> forall|j: int| 0 <= j < self.vms.len() ==> !ready_match(
                self.vms@[j],
                *lang,
            ),
    {
        let n = self.vms.len();
        let mut k: usize = 0;
        while k < n
            invariant
                n == self.vms.len(),
                k <= n,
                forall|j: int| 0 <= j < k ==> !ready_match(self.vms@[j], *lang),
            decreases n - k,
        {
            let vm = &self.vms[k];
            if vm.get_state() == VMStatus::Ready && !vm.reserved && vm.language_settings.name
                == lang.name && vm.language_settings.version == lang.version {
                return Some(k);
            }
            k += 1;
        }
        None
    }

    /// The record with this id, if any. Ids are unique in a well-formed fleet.
    pub fn find_vm(&self, id: &String) -> (r: Option<usize>)
        ensures
            r matches Some(i) ==> i < self.vms.len() && self.vms@[i as int].id@ == id@,
            r is None ==> forall|j: int| 0 <= j < self.vms.len() ==> (#[trigger] self.vms@[j]).id@
                != id@,
    {
        let n = self.vms.len();
        let mut k: usize = 0;
        while k < n
            invariant
                n == self.vms.len(),
                k <= n,
                forall|j: int| 0 <= j < k ==> (#[trigger] self.vms@[j]).id@ != id@,
            decreases n - k,
        {
            if self.vms[k].id == *id {
                return Some(k);
            }
            k += 1;
        }
        None
    }

    /// True iff some record that is not `Ended` holds this address.
    pub fn ip_taken(&self, a: u32) -> (r: bool)
        ensures
            r == in_use(self.vms@, a),
    {
        let n = self.vms.len();
        let mut k: usize = 0;
        while k < n
            invariant
                n == self.vms.len(),
                k <= n,
                forall|j: int|
                    0 <= j < k ==> !((#[trigger] self.vms@[j]).status() != VMStatus::Ended
                        && self.vms@[j].ip_addr() == Some(a)),
            decreases n - k,
        {
            let vm = &self.vms[k];
            if vm.get_state() != VMStatus::Ended {
                match vm.vm_opts.ip {
                    Some(held) => {
                        if held.address == a {
                            return true;
                        }
                    },
                    None => {},
                }
            }
            k += 1;
        }
        false
    }

    /// True iff some record already carries this id.
    fn id_taken(&self, id: &String) -> (r: bool)
        ensures
            r == exists|j: int|
                0 <= j < self.vms.len() && (#[trigger] self.vms@[j]).id@ == id@,
    {
        match self.find_vm(id) {
            Some(_) => true,
            None => false,
        }
    }

    /// Adds a record to the fleet and publishes its `Waiting` status. The
    /// record is refused (`NoIPAvalaible`) when its id or its guest IP is
    /// already held by a record that is not `Ended`.
    pub fn insert_vm(&mut self, vm: VMState) -> (r: Result<(), Error>)
        requires
            old(self).wf(),
            !vm.connected(),
            vm.status() == VMStatus::Waiting,
        ensures
            final(self).wf(),
            final(self).config == old(self).config,
            r is Ok ==> final(self).vms@ == old(self).vms@.push(vm) && final(self).events@ == old(
                self,
            ).events@.push(VMEvent { id: vm.id, status: VMStatus::Waiting }),
            r matches Err(e) ==> (e is NoIPAvalaible && final(self).vms == old(self).vms
                && final(self).events == old(self).events),
            r is Ok ==> !(exists|j: int|
                0 <= j < old(self).vms.len() && (#[trigger] old(self).vms@[j]).id@ == vm.id@) && (
            vm.ip_addr() matches Some(a) ==> !in_use(old(self).vms@, a)),
            r is Err <==> ((exists|j: int|
                0 <= j < old(self).vms.len() && (#[trigger] old(self).vms@[j]).id@ == vm.id@) || (
            vm.ip_addr() matches Some(a) && in_use(old(self).vms@, a))),
            statuses_monotonic(old(self).vms@, final(self).vms@),
    {
        if self.id_taken(&vm.id) {
            return Err(Error::NoIPAvalaible);
        }
        let conflict = match vm.vm_opts.ip {
            Some(n) => self.ip_taken(n.address),
            None => false,
        };
        if conflict {
            return Err(Error::NoIPAvalaible);
        }
        let event = VMEvent { id: vm.id.clone(), status: VMStatus::Waiting };
        self.vms.push(vm);
        self.events.push(event);
        proof {
            assert forall|i: int, j: int|
                0 <= i < j < self.vms.len() && (#[trigger] self.vms@[i]).status() != VMStatus::Ended
                    && (#[trigger] self.vms@[j]).status() != VMStatus::Ended && self.vms@[i].ip_addr()
                    is Some implies self.vms@[i].ip_addr() != self.vms@[j].ip_addr() by {
                if j == self.vms.len() - 1 {
                    if self.vms@[i].ip_addr() is Some && self.vms@[i].ip_addr() == self.vms@[j].ip_addr() {
                        assert(in_use(old(self).vms@, vm.ip_addr()->0));
                    }
                }
            }
        }
        Ok(())
    }

    /// Moves record `i` to `status` and publishes exactly one event for it.
    /// The move is refused unless it goes strictly forward on the lifecycle
    /// track; nothing changes and nothing is published on refusal.
    pub fn transition(&mut self, i: usize, status: VMStatus) -> (r: Result<(), Error>)
        requires
            i < old(self).vms.len(),
        ensures
            final(self).config == old(self).config,
            final(self).vms.len() == old(self).vms.len(),
            forall|j: int|
                0 <= j < old(self).vms.len() && j != i ==> final(self).vms@[j] == old(self).vms@[j],
            r is Ok <==> status_rank(status) > status_rank(old(self).vms@[i as int].status()),
            r is Ok ==> steps_to(old(self).vms@[i as int], final(self).vms@[i as int], status)
                && final(self).events@ == old(self).events@.push(
                VMEvent { id: old(self).vms@[i as int].id, status },
            ),
            r is Err ==> final(self).vms@ == old(self).vms@ && final(self).events == old(
                self,
            ).events,
            old(self).wf() ==> final(self).wf(),
            statuses_monotonic(old(self).vms@, final(self).vms@),
    {
        let cur = self.vms[i].get_state();
        if rank_of(status) <= rank_of(cur) {
            proof {
                assert(final(self).vms@ =~= old(self).vms@);
            }
            return Err(Error::BadAgentStatus);
        }
        let event = VMEvent { id: self.vms[i].id.clone(), status };
        let vm = &mut self.vms[i];
        vm.state = status;
        if status == VMStatus::Ended {
            vm.client_connected = false;
        }
        self.events.push(event);
        Ok(())
    }

    /// Stores the agent port of record `i`, as `Register` reports it. A port
    /// above 65535 cannot be dialled: the record is ended (published) and the
    /// call fails.
    pub fn register(&mut self, i: usize, port: u32) -> (r: Result<u16, Error>)
        requires
            i < old(self).vms.len(),
        ensures
            final(self).config == old(self).config,
            final(self).vms.len() == old(self).vms.len(),
            forall|j: int|
                0 <= j < old(self).vms.len() && j != i ==> final(self).vms@[j] == old(self).vms@[j],
            port <= u16::MAX ==> (r matches Ok(p) && p == port && final(self).events == old(self).events
                && {
                let pre = old(self).vms@[i as int];
                let post = final(self).vms@[i as int];
                &&& post.id == pre.id
                &&& post.vm_opts == pre.vm_opts
                &&& post.language_settings == pre.language_settings
                &&& post.request == pre.request
                &&& post.response == pre.response
                &&& post.status() == pre.status()
                &&& post.connected() == pre.connected()
                &&& post.reserved == pre.reserved
                &&& post.port() == Some(p)
            }),
            port > u16::MAX ==> (r matches Err(e) && e is BadAgentStatus
                && final(self).vms@[i as int].status() == VMStatus::Ended),
            port > u16::MAX && old(self).vms@[i as int].status() != VMStatus::Ended ==> (steps_to(
                old(self).vms@[i as int],
                final(self).vms@[i as int],
                VMStatus::Ended,
            ) && final(self).events@ == old(self).events@.push(
                (VMEvent { id: old(self).vms@[i as int].id, status: VMStatus::Ended }),
            )),
            port > u16::MAX && old(self).vms@[i as int].status() == VMStatus::Ended ==> (
            final(self).vms@ == old(self).vms@ && final(self).events == old(self).events),
            old(self).wf() ==> final(self).wf(),
            statuses_monotonic(old(self).vms@, final(self).vms@),
    {
        if port <= 0xffff {
            let p = port as u16;
            let vm = &mut self.vms[i];
            vm.remote_port = Some(p);
            Ok(p)
        } else {
            let cur = self.vms[i].get_state();
            if rank_of(VMStatus::Ended) > rank_of(cur) {
                let _ = self.transition(i, VMStatus::Ended);
            }
            Err(Error::BadAgentStatus)
        }
    }

    /// Completes the rendezvous after the host dialled the agent of record
    /// `i` successfully: the record becomes `Ready` with its client attached,
    /// in one step, and the `Ready` event is published only now — after the
    /// dial, as the design orders. Fails with `BadAgentStatus`, changing and
    /// publishing nothing, when the record is past `Waiting` (a stale retry,
    /// or a record that already ended) or when no port or address is known.
    pub fn ready(&mut self, i: usize) -> (r: Result<(), Error>)
        requires
            i < old(self).vms.len(),
        ensures
            final(self).config == old(self).config,
            final(self).vms.len() == old(self).vms.len(),
            forall|j: int|
                0 <= j < old(self).vms.len() && j != i ==> final(self).vms@[j] == old(self).vms@[j],
            r is Ok <==> (old(self).vms@[i as int].status() == VMStatus::Waiting && old(
                self,
            ).vms@[i as int].port() is Some && old(self).vms@[i as int].ip_addr() is Some),
            r is Ok ==> final(self).vms@[i as int] == (VMState {
                state: VMStatus::Ready,
                client_connected: true,
                ..old(self).vms@[i as int]
            }) && final(self).events@ == old(self).events@.push(
                (VMEvent { id: old(self).vms@[i as int].id, status: VMStatus::Ready }),
            ),
            r is Err ==> final(self).vms@ == old(self).vms@ && final(self).events == old(
                self,
            ).events,
            old(self).wf() ==> final(self).wf(),
            statuses_monotonic(old(self).vms@, final(self).vms@),
    {
        {
            let vm = &self.vms[i];
            match vm.vm_opts.ip {
                Some(_) => {},
                None => {
                    return Err(Error::BadAgentStatus);
                },
            }
            match vm.remote_port {
                Some(_) => {},
                None => {
                    return Err(Error::BadAgentStatus);
                },
            }
        }
        let st = self.vms[i].get_state();
        if st != VMStatus::Waiting {
            proof {
                assert(final(self).vms@ =~= old(self).vms@);
            }
            return Err(Error::BadAgentStatus);
        }
        let r = self.transition(i, VMStatus::Ready);
        proof {
            assert(r is Ok);
        }
        let vm = &mut self.vms[i];
        vm.client_connected = true;
        Ok(())
    }

    /// Forces record `i` to `Ended` — the VM exited, its agent reported an
    /// error, or its dial failed. Publishes the `Ended` event unless the
    /// record had already ended; never fails.
    pub fn mark_ended(&mut self, i: usize)
        requires
            i < old(self).vms.len(),
        ensures
            final(self).config == old(self).config,
            final(self).vms.len() == old(self).vms.len(),
            forall|j: int|
                0 <= j < old(self).vms.len() && j != i ==> final(self).vms@[j] == old(self).vms@[j],
            final(self).vms@[i as int].status() == VMStatus::Ended,
            old(self).vms@[i as int].status() != VMStatus::Ended ==> steps_to(
                old(self).vms@[i as int],
                final(self).vms@[i as int],
                VMStatus::Ended,
            ) && final(self).events@ == old(self).events@.push(
                VMEvent { id: old(self).vms@[i as int].id, status: VMStatus::Ended },
            ),
            old(self).vms@[i as int].status() == VMStatus::Ended ==> final(self).vms@ == old(
                self,
            ).vms@ && final(self).events == old(self).events,
            old(self).wf() ==> final(self).wf(),
            statuses_monotonic(old(self).vms@, final(self).vms@),
    {
        let st = self.vms[i].get_state();
        if st != VMStatus::Ended {
            let _ = self.transition(i, VMStatus::Ended);
        }
    }

    /// Hands the request to record `i` and moves it to `Running`, publishing
    /// the event. Fails with `VmAlreadyEnded` when the record moved past
    /// `Ready` before the request could start (the dispatch race of a VM that
    /// died or was taken), and with `ExecutionError` when no client is
    /// attached (there is nobody to call); nothing changes on failure.
    pub fn execute_begin(&mut self, i: usize, request: ExecuteRequest) -> (r: Result<(), Error>)
        requires
            i < old(self).vms.len(),
            old(self).wf(),
        ensures
            final(self).wf(),
            final(self).config == old(self).config,
            final(self).vms.len() == old(self).vms.len(),
            forall|j: int|
                0 <= j < old(self).vms.len() && j != i ==> final(self).vms@[j] == old(self).vms@[j],
            r is Ok <==> (old(self).vms@[i as int].connected() && old(
                self,
            ).vms@[i as int].status() == VMStatus::Ready),
            old(self).vms@[i as int].status() == VMStatus::Ended ==> (r matches Err(e) && e
                is VmAlreadyEnded),
            old(self).vms@[i as int].status() == VMStatus::Running ==> (r matches Err(e) && e
                is VmAlreadyEnded),
            old(self).vms@[i as int].status() != VMStatus::Ended && old(
                self,
            ).vms@[i as int].status() != VMStatus::Running && !old(self).vms@[i as int].connected()
                ==> (r matches Err(e) && e is ExecutionError),
            r is Ok ==> final(self).vms@[i as int] == (VMState {
                state: VMStatus::Running,
                request: Some(request),
                ..old(self).vms@[i as int]
            }) && final(self).events@ == old(self).events@.push(
                (VMEvent { id: old(self).vms@[i as int].id, status: VMStatus::Running }),
            ),
            r is Err ==> final(self).vms@ == old(self).vms@ && final(self).events == old(
                self,
            ).events,
            statuses_monotonic(old(self).vms@, final(self).vms@),
    {
        let st = self.vms[i].get_state();
        if st == VMStatus::Ended || st == VMStatus::Running {
            return Err(Error::VmAlreadyEnded);
        }
        let connected = self.vms[i].client_connected;
        if !connected {
            return Err(Error::ExecutionError);
        }
        if st != VMStatus::Ready {
            // Unreachable under well-formedness: a client is attached only
            // in `Ready` or `Running`. Refused defensively all the same.
            return Err(Error::ExecutionError);
        }
        let vm = &mut self.vms[i];
        vm.request = Some(request);
        let r = self.transition(i, VMStatus::Running);
        proof {
            assert(r is Ok);
        }
        Ok(())
    }

    /// Settles record `i` after its `Execute` call came back: the record is
    /// ended (published once) whatever happened, the reply is stored on
    /// success, a timeout is reported as `Timeout` and any other failure of
    /// the call as `ExecutionError`.
    pub fn execute_finish(&mut self, i: usize, outcome: ExecuteOutcome) -> (r: Result<
        ExecuteResponse,
        Error,
    >)
        requires
            i < old(self).vms.len(),
            old(self).wf(),
        ensures
            final(self).wf(),
            final(self).config == old(self).config,
            final(self).vms.len() == old(self).vms.len(),
            forall|j: int|
                0 <= j < old(self).vms.len() && j != i ==> final(self).vms@[j] == old(self).vms@[j],
            final(self).vms@[i as int].status() == VMStatus::Ended,
            outcome matches ExecuteOutcome::Response(resp) ==> (r matches Ok(out) && out == resp
                && (final(self).vms@[i as int].response matches Some(stored) && stored.id
                == resp.id && stored.steps@ == resp.steps@)),
            outcome is Timeout ==> (r matches Err(e) && e is Timeout),
            outcome is RpcError ==> (r matches Err(e) && e is ExecutionError),
            old(self).vms@[i as int].status() != VMStatus::Ended ==> final(self).events@ == old(
                self,
            ).events@.push(
                (VMEvent { id: old(self).vms@[i as int].id, status: VMStatus::Ended }),
            ),
            old(self).vms@[i as int].status() == VMStatus::Ended ==> final(self).events == old(
                self,
            ).events,
            ({
                let pre = old(self).vms@[i as int];
                let post = final(self).vms@[i as int];
                &&& post.id == pre.id
                &&& post.vm_opts == pre.vm_opts
                &&& post.language_settings == pre.language_settings
                &&& post.request == pre.request
                &&& post.port() == pre.port()
                &&& post.reserved == pre.reserved
                &&& !post.connected()
            }),
            (outcome is Timeout || outcome is RpcError) ==> final(self).vms@[i as int].response
                == old(self).vms@[i as int].response,
            statuses_monotonic(old(self).vms@, final(self).vms@),
    {
        match outcome {
            ExecuteOutcome::Response(resp) => {
                let vm = &mut self.vms[i];
                vm.response = Some(resp.clone());
                self.mark_ended(i);
                Ok(resp)
            },
            ExecuteOutcome::RpcError => {
                self.mark_ended(i);
                Err(Error::ExecutionError)
            },
            ExecuteOutcome::Timeout => {
                self.mark_ended(i);
                Err(Error::Timeout)
            },
        }
    }
}

/// How an `Execute` call on the agent came back: a reply, a failed call, or
/// no answer within the deadline.
#[derive(Debug)]
pub enum ExecuteOutcome {
    Response(ExecuteResponse),
    RpcError,
    Timeout,
}

/// In a well-formed fleet no two records that are not `Ended` hold the same
/// guest IP.
pub proof fn lemma_ip_uniqueness(s: LambdoState, i: int, j: int)
    requires
        s.wf(),
        0 <= i < s.vms.len(),
        0 <= j < s.vms.len(),
        i != j,
        s.vms@[i].status() != VMStatus::Ended,
        s.vms@[j].status() != VMStatus::Ended,
        s.vms@[i].ip_addr() is Some,
    ensures
        s.vms@[i].ip_addr() != s.vms@[j].ip_addr(),
{
}

} // verus!
