//! Guest IP allocation on the host bridge, and the plain-number view of the
//! bridge network: parsing the configured `address/prefix` string, the range
//! of addresses the prefix spans, and dotted notation for handing addresses
//! to the guest.
use vstd::arithmetic::power2::pow2;
use vstd::prelude::*;

use crate::state::{in_use, LambdoState};
use crate::text::{spec_decimal, string_push, u32_to_string};
use crate::vmm::{Error, Ipv4Net};

verus! {

/// `pow2(32)` is one beyond the last IPv4 address.
proof fn lemma_pow2_32()
    ensures
        pow2(32) == 0x1_0000_0000,
{
    vstd::arithmetic::power2::lemma2_to64();
}

proof fn lemma_pow2_le(a: nat, b: nat)
    requires
        a <= b,
    ensures
        pow2(a) <= pow2(b),
        pow2(a) >= 1,
{
    vstd::arithmetic::power2::lemma_pow2_pos(a);
    if a < b {
        vstd::arithmetic::power2::lemma_pow2_strictly_increases(a, b);
    }
}

/// How many addresses the prefix leaves to hosts.
pub open spec fn spec_host_count(prefix: u8) -> nat
    recommends
        prefix <= 32,
{
    pow2((32 - prefix) as nat)
}

/// The first address of the bridge's network.
pub open spec fn spec_network(b: Ipv4Net) -> nat
    recommends
        b.prefix <= 32,
{
    (b.address as nat / spec_host_count(b.prefix)) * spec_host_count(b.prefix)
}

/// The last address of the bridge's network.
pub open spec fn spec_last(b: Ipv4Net) -> nat
    recommends
        b.prefix <= 32,
{
    (spec_network(b) + spec_host_count(b.prefix) - 1) as nat
}

/// The network spans the addresses from `spec_network` to `spec_last`; the
/// bridge's own address lies among them, and all of them fit in 32 bits.
pub proof fn lemma_network_bounds(b: Ipv4Net)
    requires
        b.prefix <= 32,
    ensures
        spec_network(b) <= b.address,
        b.address as nat <= spec_last(b),
        spec_last(b) < 0x1_0000_0000,
        spec_host_count(b.prefix) >= 1,
        spec_host_count(b.prefix) <= 0x1_0000_0000,
{
    let hc = spec_host_count(b.prefix) as int;
    lemma_pow2_le(0, (32 - b.prefix) as nat);
    lemma_pow2_le((32 - b.prefix) as nat, 32);
    lemma_pow2_32();
    let x = b.address as int;
    vstd::arithmetic::div_mod::lemma_fundamental_div_mod(x, hc);
    vstd::arithmetic::div_mod::lemma_mod_division_less_than_divisor(x, hc);
    vstd::arithmetic::div_mod::lemma_mod_bound(x, hc);
    let q = x / hc;
    let r = x % hc;
    assert(spec_network(b) == q * hc);
    assert(q * hc <= x && q >= 0 && hc * q == q * hc) by (nonlinear_arith)
        requires
            x == hc * q + r,
            0 <= r < hc,
            hc >= 1,
            x >= 0,
    ;
    assert(x <= q * hc + hc - 1);
    vstd::arithmetic::power2::lemma_pow2_adds((32 - b.prefix) as nat, b.prefix as nat);
    let pp = pow2(b.prefix as nat) as int;
    lemma_pow2_le(0, b.prefix as nat);
    assert(q < pp) by (nonlinear_arith)
        requires
            hc >= 1,
            pp >= 1,
            x == hc * q + r,
            0 <= r < hc,
            x < hc * pp,
    ;
    assert((q + 1) * hc <= pp * hc) by (nonlinear_arith)
        requires
            q + 1 <= pp,
            hc >= 1,
    ;
    assert((q + 1) * hc == q * hc + hc) by (nonlinear_arith);
}

/// `2 ^ (32 - prefix)`, the number of addresses the prefix leaves to hosts.
pub fn host_count(prefix: u8) -> (r: u64)
    requires
        prefix <= 32,
    ensures
        r == spec_host_count(prefix),
        r >= 1,
{
    let n: u8 = 32 - prefix;
    let mut r: u64 = 1;
    let mut j: u8 = 0;
    proof {
        lemma_pow2_le(0, n as nat);
        lemma_pow2_le(n as nat, 32);
        lemma_pow2_32();
        vstd::arithmetic::power2::lemma2_to64();
    }
    while j < n
        invariant
            j <= n <= 32,
            r == pow2(j as nat),
            pow2(n as nat) <= pow2(32),
            pow2(32) == 0x1_0000_0000,
        decreases n - j,
    {
        proof {
            lemma_pow2_le(j as nat + 1, n as nat);
            vstd::arithmetic::power2::lemma_pow2_unfold((j + 1) as nat);
        }
        r = r * 2;
        j += 1;
    }
    r
}

/// The lowest address of the bridge network strictly above the bridge's own
/// address that no live record holds; `NoIPAvalaible` when every address up
/// to the end of the prefix is taken. Addresses are scanned upward one by
/// one, so allocation is deterministic and lowest-first.
pub fn find_available_ip(state: &LambdoState, bridge: Ipv4Net) -> (r: Result<u32, Error>)
    requires
        bridge.prefix <= 32,
    ensures
        r matches Ok(ip) ==> bridge.address < ip && ip as nat <= spec_last(bridge) && !in_use(
            state.vms@,
            ip,
        ) && (forall|x: u32| bridge.address < x < ip ==> in_use(state.vms@, x)),
        r matches Err(e) ==> e is NoIPAvalaible && (forall|x: u32|
            bridge.address < x && x as nat <= spec_last(bridge) ==> in_use(state.vms@, x)),
{
    proof {
        lemma_network_bounds(bridge);
    }
    let hc = host_count(bridge.prefix);
    let network: u64 = ((bridge.address as u64) / hc) * hc;
    let last: u64 = network + hc - 1;
    proof {
        assert(network == spec_network(bridge));
        assert(last == spec_last(bridge));
    }
    let mut a: u64 = (bridge.address as u64) + 1;
    while a <= last
        invariant
            bridge.address < a,
            last == spec_last(bridge),
            last < 0x1_0000_0000,
            forall|x: u32| bridge.address < x && (x as u64) < a ==> in_use(state.vms@, x),
        decreases last + 1 - a,
    {
        let candidate: u32 = a as u32;
        if !state.ip_taken(candidate) {
            return Ok(candidate);
        }
        a += 1;
    }
    Err(Error::NoIPAvalaible)
}

/// Dotted decimal notation of an IPv4 address given as a number.
pub open spec fn spec_ipv4_string(a: u32) -> Seq<char> {
    spec_decimal((a as nat / 0x1000000) % 256) + seq!['.'] + spec_decimal(
        (a as nat / 0x10000) % 256,
    ) + seq!['.'] + spec_decimal((a as nat / 0x100) % 256) + seq!['.'] + spec_decimal(
        a as nat % 256,
    )
}

/// Prints an address in dotted decimal notation.
pub fn ipv4_to_string(a: u32) -> (r: String)
    ensures
        r@ == spec_ipv4_string(a),
{
    let mut r = u32_to_string((a / 0x1000000) % 256);
    string_push(&mut r, '.');
    let o2 = u32_to_string((a / 0x10000) % 256);
    r.append(o2.as_str());
    string_push(&mut r, '.');
    let o3 = u32_to_string((a / 0x100) % 256);
    r.append(o3.as_str());
    string_push(&mut r, '.');
    let o4 = u32_to_string(a % 256);
    r.append(o4.as_str());
    proof {
        assert(r@ =~= spec_ipv4_string(a));
    }
    r
}

/// `address/prefix` notation for handing a guest its address.
pub open spec fn spec_inet_string(n: Ipv4Net) -> Seq<char> {
    spec_ipv4_string(n.address) + seq!['/'] + spec_decimal(n.prefix as nat)
}

/// Prints `address/prefix`.
pub fn inet_to_string(n: Ipv4Net) -> (r: String)
    ensures
        r@ == spec_inet_string(n),
{
    let mut r = ipv4_to_string(n.address);
    string_push(&mut r, '/');
    let p = u32_to_string(n.prefix as u32);
    r.append(p.as_str());
    proof {
        assert(r@ =~= spec_inet_string(n));
    }
    r
}

/// The address an agent is dialled at, `http://address:port`.
pub open spec fn spec_dial_address(a: u32, port: u16) -> Seq<char> {
    "http://"@ + spec_ipv4_string(a) + seq![':'] + spec_decimal(port as nat)
}

/// Prints the dial address of an agent.
pub fn dial_address(a: u32, port: u16) -> (r: String)
    ensures
        r@ == spec_dial_address(a, port),
{
    let mut r = String::from_str("http://");
    let ip = ipv4_to_string(a);
    r.append(ip.as_str());
    string_push(&mut r, ':');
    let p = u32_to_string(port as u32);
    r.append(p.as_str());
    proof {
        assert(r@ =~= spec_dial_address(a, port));
    }
    r
}

/// What `cidr` parses an IPv4 inet string to: the address and the prefix
/// length, a function of the text alone.
pub uninterp spec fn spec_parsed_inet(s: Seq<char>) -> Option<Ipv4Net>;

/// Accepts the configured bridge exactly when its name fits a Linux
/// interface name (at most 15 characters) and its address parses; returns
/// the bridge network. The host performs this check once at startup, before
/// it touches the bridge.
pub fn validate_bridge_config(name: &String, address: &String) -> (r: Result<Ipv4Net, Error>)
    ensures
        r matches Ok(b) ==> name@.len() <= 15 && spec_parsed_inet(address@) == Some(b) && b.prefix
            <= 32,
        r matches Err(e) ==> (e is NetSetupError && (name@.len() > 15 || spec_parsed_inet(address@)
            is None)),
{
    if name.as_str().unicode_len() > 15 {
        return Err(Error::NetSetupError(String::from_str("bridge name is too long")));
    }
    match parse_ipv4_inet(address.as_str()) {
        Some(b) => Ok(b),
        None => Err(Error::NetSetupError(String::from_str("invalid bridge address"))),
    }
}

/// Relies on `cidr::Ipv4Inet::from_str`: parses `a.b.c.d/len` (or a bare
/// address, then `len` is 32) and refuses a prefix length above 32.
#[verifier::external_body]
pub fn parse_ipv4_inet(s: &str) -> (r: Option<Ipv4Net>)
    ensures
        r == spec_parsed_inet(s@),
        r matches Some(n) ==> n.prefix <= 32,
{
    match s.parse::<cidr::Ipv4Inet>() {
        Ok(inet) => Some(
            Ipv4Net { address: u32::from(inet.address()), prefix: inet.network_length() },
        ),
        Err(_) => None,
    }
}

} // verus!
