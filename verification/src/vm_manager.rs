//! The warm-pool scheduler: booking a new microVM (guest IP, tap name, boot
//! options, fleet record), the warm-pool accounting, and the refill rule that
//! keeps one idle VM per language.
//!
//! The host around the library drives the asynchronous parts: it starts the
//! VM the returned options describe, attaches the tap to the bridge, drains
//! [`crate::state::LambdoState::events`] into its broadcast channel, and on
//! every `Running` event asks [`VMManager::refill_decision`] whether to boot
//! a replacement.
use vstd::prelude::*;

use crate::model::LanguageSettings;
use crate::net::{find_available_ip, ipv4_to_string, parse_ipv4_inet, spec_last};
use crate::state::{in_use, steps_to, LambdoState, VMEvent, VMState, VMStatus};
use crate::vmm::{Error, Ipv4Net, VMMOpts};

verus! {

/// Relies on `uuid::Uuid::new_v4` and its `Display`: the hyphenated form of
/// a UUID is 36 characters. Nothing is assumed about which id comes back.
#[verifier::external_body]
pub(crate) fn new_uuid() -> (r: String)
    ensures
        r@.len() == 36,
{
    uuid::Uuid::new_v4().to_string()
}

/// The tap device of a VM is named after the first eight characters of its
/// id.
fn tap_name(id: &str) -> (r: String)
    requires
        id@.len() >= 8,
    ensures
        r@ == "tap-"@ + id@.subrange(0, 8),
{
    let prefix = String::from_str("tap-");
    let first8 = id.substring_char(0, 8);
    prefix.concat(first8)
}

/// The deadline, in seconds, the scheduler puts on every `Execute` call; on
/// expiry the record is ended and the request is answered as timed out.
pub const EXECUTE_TIMEOUT_SECONDS: u64 = 15;

/// The scheduler's view of a configured language.
pub open spec fn lang_of(cfg: crate::config::LambdoLanguageConfig) -> LanguageSettings {
    LanguageSettings { name: cfg.name, version: cfg.version, initramfs: cfg.initramfs }
}

/// No two configured languages share a key (name and version).
pub open spec fn distinct_language_keys(langs: Seq<crate::config::LambdoLanguageConfig>) -> bool {
    forall|i: int, j: int|
        0 <= i < j < langs.len() ==> ((#[trigger] langs[i]).name@ != (#[trigger] langs[j]).name@
            || langs[i].version@ != langs[j].version@)
}

/// Whether a record serves the given language.
pub open spec fn lang_matches(vm: VMState, lang: LanguageSettings) -> bool {
    vm.language_settings.name@ == lang.name@ && vm.language_settings.version@ == lang.version@
}

/// A warm (or warming) pool member: unreserved, of this language, and not yet
/// taken by a request.
pub open spec fn warm(vm: VMState, lang: LanguageSettings) -> bool {
    &&& !vm.reserved
    &&& lang_matches(vm, lang)
    &&& (vm.status() == VMStatus::Waiting || vm.status() == VMStatus::Ready)
}

/// How many warm (or warming) pool members of this language the fleet holds.
pub open spec fn count_warm(vms: Seq<VMState>, lang: LanguageSettings) -> nat
    decreases vms.len(),
{
    if vms.len() == 0 {
        0nat
    } else {
        count_warm(vms.drop_last(), lang) + (if warm(vms.last(), lang) {
            1nat
        } else {
            0nat
        })
    }
}

/// Appending a record raises the warm count by one exactly when the record is
/// warm.
pub proof fn lemma_count_warm_push(vms: Seq<VMState>, vm: VMState, lang: LanguageSettings)
    ensures
        count_warm(vms.push(vm), lang) == count_warm(vms, lang) + (if warm(vm, lang) {
            1nat
        } else {
            0nat
        }),
{
    assert(vms.push(vm).drop_last() =~= vms);
    assert(vms.push(vm).last() == vm);
}

/// Changing one record changes the warm count by the difference that record
/// makes.
pub proof fn lemma_count_warm_update(
    pre: Seq<VMState>,
    post: Seq<VMState>,
    i: int,
    lang: LanguageSettings,
)
    requires
        0 <= i < pre.len(),
        post.len() == pre.len(),
        forall|j: int| 0 <= j < pre.len() && j != i ==> post[j] == pre[j],
    ensures
        count_warm(post, lang) + (if warm(pre[i], lang) {
            1nat
        } else {
            0nat
        }) == count_warm(pre, lang) + (if warm(post[i], lang) {
            1nat
        } else {
            0nat
        }),
    decreases pre.len(),
{
    if i == pre.len() - 1 {
        assert(post.drop_last() =~= pre.drop_last());
    } else {
        assert(forall|j: int|
            0 <= j < pre.drop_last().len() && j != i ==> pre.drop_last()[j] == post.drop_last()[j]);
        lemma_count_warm_update(pre.drop_last(), post.drop_last(), i, lang);
        assert(pre.last() == post.last());
    }
}

/// The warm-pool law: when a request consumes a warm `Ready` record (its
/// `Ready -> Running` move) and the refill rule boots the one unreserved
/// replacement of the same language, the number of warm records of that
/// language is exactly what it was. With one warm VM per language booted at
/// startup, the pool therefore holds one warm VM per language again whenever
/// no request is in flight and every event has been acted on.
pub proof fn lemma_warm_pool_refill(
    pre: Seq<VMState>,
    i: int,
    taken: VMState,
    booted: VMState,
    lang: LanguageSettings,
)
    requires
        0 <= i < pre.len(),
        warm(pre[i], lang),
        pre[i].status() == VMStatus::Ready,
        steps_to(pre[i], taken, VMStatus::Running),
        warm(booted, lang),
    ensures
        count_warm(pre.update(i, taken).push(booted), lang) == count_warm(pre, lang),
{
    let mid = pre.update(i, taken);
    lemma_count_warm_update(pre, mid, i, lang);
    lemma_count_warm_push(mid, booted, lang);
}

/// The scheduler's handle on the fleet.
pub struct VMManager {
    pub state: LambdoState,
}

impl VMManager {
    /// Wraps an existing fleet.
    pub fn new(state: LambdoState) -> (r: Self)
        ensures
            r.state == state,
    {
        VMManager { state }
    }

    /// Books one new microVM for a language: allocates the lowest free guest
    /// IP on the bridge, mints an id, derives the tap name from it, inserts
    /// the `Waiting` record (publishing its event), and returns the id with
    /// the boot options for the host to start the VM and attach the tap.
    ///
    /// Fails with `NetSetupError` when the configured bridge address does not
    /// parse, with `NoIPAvalaible` when the bridge network is exhausted, and
    /// leaves the fleet unchanged then.
    pub fn run_vm(&mut self, language_settings: &LanguageSettings, reserved: bool) -> (r: Result<
        (String, VMMOpts),
        Error,
    >)
        requires
            old(self).state.wf(),
        ensures
            final(self).state.wf(),
            final(self).state.config == old(self).state.config,
            r matches Ok(out) ==> ({
                let vm = final(self).state.vms@.last();
                &&& final(self).state.vms@ == old(self).state.vms@.push(vm)
                &&& vm.id == out.0
                &&& vm.id@.len() == 36
                &&& vm.vm_opts == out.1
                &&& vm.status() == VMStatus::Waiting
                &&& vm.reserved == reserved
                &&& vm.language_settings == *language_settings
                &&& vm.request is None
                &&& vm.response is None
                &&& !vm.connected()
                &&& (vm.ip_addr() matches Some(a) && !crate::state::in_use(old(self).state.vms@, a))
                &&& (spec_parsed_bridge(old(self).state.config.api.bridge_address@) matches Some(b)
                    ==> (vm.ip_addr() matches Some(a) && b.address < a && a as nat <= spec_last(b)
                    && (forall|x: u32|
                    b.address < x < a ==> crate::state::in_use(old(self).state.vms@, x))))
                &&& out.1.tap matches Some(t) && t@ == "tap-"@ + vm.id@.subrange(0, 8)
                &&& out.1.kernel == old(self).state.config.vmm.kernel
                &&& out.1.cpus == 1
                &&& out.1.memory == 1024
                &&& out.1.console is None
                &&& out.1.socket is None
                &&& (out.1.initramfs matches Some(f) && f == language_settings.initramfs)
                &&& (spec_parsed_bridge(old(self).state.config.api.bridge_address@) matches Some(b)
                    ==> (out.1.gateway matches Some(g) && g@ == crate::net::spec_ipv4_string(
                    b.address,
                ) && (out.1.ip matches Some(n) && n.prefix == b.prefix)))
                &&& final(self).state.events@ == old(self).state.events@.push(
                    (VMEvent { id: vm.id, status: VMStatus::Waiting }),
                )
                &&& count_warm(final(self).state.vms@, *language_settings) == count_warm(
                    old(self).state.vms@,
                    *language_settings,
                ) + (if reserved {
                    0nat
                } else {
                    1nat
                })
            }),
            r is Err ==> final(self).state.vms@ == old(self).state.vms@ && final(self).state.events
                == old(self).state.events,
            r matches Err(e) ==> (e is NetSetupError || e is NoIPAvalaible),
            (r matches Err(e) && e is NoIPAvalaible) ==> ((spec_parsed_bridge(
                old(self).state.config.api.bridge_address@,
            ) matches Some(b) && (forall|x: u32|
                b.address < x && x as nat <= spec_last(b) ==> in_use(old(self).state.vms@, x)))
                || old(self).state.vms@.len() > 0),
            (spec_parsed_bridge(old(self).state.config.api.bridge_address@) matches Some(b) && (
            b.address as nat) < spec_last(b) && old(self).state.vms@.len() == 0) ==> r is Ok,
            (r matches Err(e) && e is NetSetupError) <==> spec_parsed_bridge(
                old(self).state.config.api.bridge_address@,
            ) is None,
            (spec_parsed_bridge(old(self).state.config.api.bridge_address@) matches Some(b) && (
            forall|x: u32|
                b.address < x && x as nat <= spec_last(b) ==> crate::state::in_use(
                    old(self).state.vms@,
                    x,
                ))) ==> (r matches Err(e) && e is NoIPAvalaible),
    {
        let bridge = match parse_ipv4_inet(self.state.config.api.bridge_address.as_str()) {
            Some(b) => b,
            None => {
                return Err(Error::NetSetupError(String::from_str("invalid bridge address")));
            },
        };
        let ip = match find_available_ip(&self.state, bridge) {
            Ok(ip) => ip,
            Err(e) => {
                proof {
                    // On an empty fleet with room behind the bridge address,
                    // the allocator cannot fail: its first candidate is free.
                    crate::net::lemma_network_bounds(bridge);
                    if self.state.vms@.len() == 0 && (bridge.address as nat) < spec_last(bridge) {
                        let x: u32 = (bridge.address + 1) as u32;
                        assert(bridge.address < x && x as nat <= spec_last(bridge));
                        assert(!in_use(self.state.vms@, x));
                    }
                }
                return Err(e);
            },
        };
        let id = new_uuid();
        let tap = tap_name(id.as_str());
        let opts = VMMOpts {
            kernel: self.state.config.vmm.kernel.clone(),
            cpus: 1,
            memory: 1024,
            console: None,
            socket: None,
            initramfs: Some(language_settings.initramfs.clone()),
            tap: Some(tap),
            ip: Some(Ipv4Net { address: ip, prefix: bridge.prefix }),
            gateway: Some(ipv4_to_string(bridge.address)),
        };
        let vm = VMState::new(id.clone(), opts.clone(), language_settings.clone(), reserved);
        let ghost pre = self.state.vms@;
        match self.state.insert_vm(vm) {
            Ok(()) => {},
            Err(e) => {
                return Err(e);
            },
        }
        proof {
            lemma_count_warm_push(pre, final(self).state.vms@.last(), *language_settings);
        }
        Ok((id, opts))
    }

    /// Boots one unreserved VM for every configured language, in order: the
    /// warm pool right after startup. Stops at the first failure, leaving the
    /// records already booked in place, as the startup sequence does.
    ///
    /// For a configuration whose languages carry distinct keys, every
    /// language's warm count rises by exactly one: started on an empty fleet,
    /// the pool then holds one warm VM per language.
    pub fn warm_startup(&mut self) -> (r: Result<Vec<(String, VMMOpts)>, Error>)
        requires
            old(self).state.wf(),
        ensures
            final(self).state.wf(),
            final(self).state.config == old(self).state.config,
            r matches Ok(orders) ==> ({
                &&& orders@.len() == old(self).state.config.languages.len()
                &&& final(self).state.vms@.len() == old(self).state.vms@.len() + orders@.len()
                &&& (forall|j: int|
                    0 <= j < orders@.len() ==> (#[trigger] orders@[j]).0 == final(self).state.vms@[old(self).state.vms@.len() + j].id && orders@[j].1 == final(self).state.vms@[old(self).state.vms@.len() + j].vm_opts)
            }),
            r is Ok && distinct_language_keys(old(self).state.config.languages@) ==> (forall|j: int|
                0 <= j < old(self).state.config.languages.len() ==> count_warm(
                    final(self).state.vms@,
                    lang_of(#[trigger] old(self).state.config.languages@[j]),
                ) == count_warm(
                    old(self).state.vms@,
                    lang_of(old(self).state.config.languages@[j]),
                ) + 1),
            r matches Err(e) ==> (e is NetSetupError || e is NoIPAvalaible),
            (r matches Err(e) && e is NetSetupError) ==> spec_parsed_bridge(
                old(self).state.config.api.bridge_address@,
            ) is None,
            spec_parsed_bridge(old(self).state.config.api.bridge_address@) is None && old(self).state.config.languages.len() > 0 ==> (r matches Err(e) && e is NetSetupError),
            (spec_parsed_bridge(old(self).state.config.api.bridge_address@) matches Some(b) && (
            b.address as nat) < spec_last(b) && old(self).state.vms@.len() == 0 && old(self).state.config.languages.len() == 1) ==> r is Ok,
            final(self).state.events@.len() == old(self).state.events@.len() + final(self).state.vms@.len() - old(self).state.vms@.len(),
            forall|j: int|
                0 <= j < old(self).state.events@.len() ==> final(self).state.events@[j] == old(self).state.events@[j],
            forall|j: int|
                old(self).state.events@.len() <= j < final(self).state.events@.len() ==> (
                #[trigger] final(self).state.events@[j]).status == VMStatus::Waiting && final(self).state.events@[j].id == final(self).state.vms@[old(self).state.vms@.len() + (j
                    - old(self).state.events@.len())].id,
            crate::state::statuses_monotonic(old(self).state.vms@, final(self).state.vms@),
    {
        let n = self.state.config.languages.len();
        let mut orders: Vec<(String, VMMOpts)> = Vec::new();
        let mut k: usize = 0;
        let ghost langs = self.state.config.languages@;
        while k < n
            invariant
                self.state.wf(),
                n == self.state.config.languages.len(),
                self.state.config == old(self).state.config,
                langs == old(self).state.config.languages@,
                k <= n,
                orders.len() == k,
                self.state.vms@.len() == old(self).state.vms@.len() + k,
                k > 0 ==> spec_parsed_bridge(old(self).state.config.api.bridge_address@) is Some,
                forall|j: int|
                    0 <= j < k ==> (#[trigger] orders@[j]).0 == self.state.vms@[old(self).state.vms@.len() + j].id && orders@[j].1 == self.state.vms@[old(self).state.vms@.len() + j].vm_opts,
                self.state.events@.len() == old(self).state.events@.len() + k,
                forall|j: int|
                    0 <= j < old(self).state.events@.len() ==> self.state.events@[j] == old(self).state.events@[j],
                forall|j: int|
                    old(self).state.events@.len() <= j < self.state.events@.len() ==> (
                    #[trigger] self.state.events@[j]).status == VMStatus::Waiting
                        && self.state.events@[j].id == self.state.vms@[old(self).state.vms@.len()
                        + (j - old(self).state.events@.len())].id,
                distinct_language_keys(langs) ==> (forall|j: int|
                    0 <= j < k ==> count_warm(self.state.vms@, lang_of(#[trigger] langs[j]))
                        == count_warm(old(self).state.vms@, lang_of(langs[j])) + 1),
                distinct_language_keys(langs) ==> (forall|j: int|
                    k <= j < n ==> count_warm(self.state.vms@, lang_of(#[trigger] langs[j]))
                        == count_warm(old(self).state.vms@, lang_of(langs[j]))),
                crate::state::statuses_monotonic(old(self).state.vms@, self.state.vms@),
            decreases n - k,
        {
            let ghost mid = self.state.vms@;
            let lang = LanguageSettings {
                name: self.state.config.languages[k].name.clone(),
                version: self.state.config.languages[k].version.clone(),
                initramfs: self.state.config.languages[k].initramfs.clone(),
            };
            match self.run_vm(&lang, false) {
                Ok(order) => {
                    orders.push(order);
                },
                Err(e) => {
                    return Err(e);
                },
            }
            proof {
                lemma_monotonic_push(old(self).state.vms@, mid, self.state.vms@);
                if distinct_language_keys(langs) {
                    let booted = self.state.vms@.last();
                    assert forall|j: int| 0 <= j < n && j != k implies count_warm(
                        self.state.vms@,
                        lang_of(langs[j]),
                    ) == count_warm(mid, lang_of(langs[j])) by {
                        assert(!lang_matches(booted, lang_of(langs[j])));
                        lemma_count_warm_push(mid, booted, lang_of(langs[j]));
                    }
                }
            }
            k += 1;
        }
        Ok(orders)
    }

    /// The refill rule, applied to one event from the bus: when an unreserved
    /// record moved to `Running` (a request just took it), the pool of its
    /// language is one short and one replacement is to be booted; reserved
    /// records never trigger a refill, nor does any other status.
    pub fn refill_decision(&self, id: &String, status: VMStatus) -> (r: Option<LanguageSettings>)
        requires
            self.state.wf(),
        ensures
            r matches Some(l) ==> status == VMStatus::Running && (exists|i: int|
                0 <= i < self.state.vms.len() && (#[trigger] self.state.vms@[i]).id@ == id@
                    && !self.state.vms@[i].reserved && l == self.state.vms@[i].language_settings),
            r is None ==> (status != VMStatus::Running || (forall|i: int|
                0 <= i < self.state.vms.len() && (#[trigger] self.state.vms@[i]).id@ == id@
                    ==> self.state.vms@[i].reserved)),
    {
        if !(status == VMStatus::Running) {
            return None;
        }
        let i = match self.state.find_vm(id) {
            Some(i) => i,
            None => {
                return None;
            },
        };
        let vm = &self.state.vms[i];
        if vm.reserved {
            proof {
                // Ids are unique in a well-formed fleet: the one record that
                // carries this id is reserved, so no refill is due.
                assert(forall|j: int|
                    0 <= j < self.state.vms.len() && (#[trigger] self.state.vms@[j]).id@ == id@
                        ==> j == i);
            }
            return None;
        }
        Some(vm.language_settings.clone())
    }
}

/// Appending records after a monotonic step keeps the step monotonic.
proof fn lemma_monotonic_push(pre: Seq<VMState>, mid: Seq<VMState>, post: Seq<VMState>)
    requires
        crate::state::statuses_monotonic(pre, mid),
        mid == post || (post.len() == mid.len() + 1 && forall|j: int|
            0 <= j < mid.len() ==> post[j] == mid[j]),
    ensures
        crate::state::statuses_monotonic(pre, post),
{
}

/// What the configured bridge address denotes, if it parses.
pub open spec fn spec_parsed_bridge(s: Seq<char>) -> Option<Ipv4Net> {
    crate::net::spec_parsed_inet(s)
}

} // verus!
