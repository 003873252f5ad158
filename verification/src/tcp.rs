//! The raw TCP protocol server's plan: which listeners to bind, and how a
//! relayed connection reaches its backend.
use vstd::prelude::*;

use crate::text::{decimal, push_decimal, push_str};

verus! {

/// Relays raw TCP for protocols with no dedicated Warpgate support. Unlike
/// every other protocol server, this has no single listen address to bind:
/// each `Tcp` target carries its own, since raw TCP has no in-band way to
/// select a target the way other protocols' auth handshakes do.
///
/// That also means there is no Warpgate user identity to establish for a
/// connection - `Tcp` targets are not gated by Warpgate's per-user RBAC or
/// ticket policies (unlike every other target type) and don't appear in the
/// session audit log. Access control is whatever reaches the listen address;
/// operators should restrict that with network controls (firewall, VPN,
/// binding to a private interface) the way they would for a raw `socat` or
/// `iptables` port-forward.
#[derive(Clone, Copy, Debug, PartialEq, Eq, Structural)]
pub struct TcpProtocolServer;

/// Where a `Tcp` target asks to be reachable.
#[derive(Clone, Debug, PartialEq, Eq)]
pub struct TcpListenOptions {
    pub listen_address: String,
    pub listen_port: u16,
}

/// `address:port`, the form a listener binds.
pub open spec fn bind_address_text(address: Seq<char>, port: u16) -> Seq<char> {
    address + ":"@ + decimal(port as nat)
}

/// The address a `Tcp` target's listener binds.
pub fn bind_address(options: &TcpListenOptions) -> (r: String)
    ensures
        r@ == bind_address_text(options.listen_address@, options.listen_port),
{
    let mut r = String::from_str(options.listen_address.as_str());
    push_str(&mut r, ":");
    push_decimal(&mut r, options.listen_port as u64);
    r
}

/// The listeners for a target list (`None`: not a `Tcp` target): each `Tcp`
/// target's position and bind address, in order.
pub open spec fn spec_bind_plan(targets: Seq<Option<TcpListenOptions>>) -> Seq<(int, Seq<char>)>
    decreases targets.len(),
{
    if targets.len() == 0 {
        seq![]
    } else {
        let rest = spec_bind_plan(targets.drop_last());
        match targets.last() {
            Some(o) => rest.push(
                ((targets.len() - 1) as int, bind_address_text(o.listen_address@, o.listen_port)),
            ),
            None => rest,
        }
    }
}

/// A bind plan as plain values.
pub open spec fn plan_view(plan: Seq<(usize, String)>) -> Seq<(int, Seq<char>)> {
    plan.map_values(|e: (usize, String)| (e.0 as int, e.1@))
}

impl TcpProtocolServer {
    /// One listener per currently-configured `Tcp` target: the position of
    /// each such target in `targets` and the address it binds. Targets added
    /// or edited later need a restart to take effect.
    pub fn bind_plan(targets: &Vec<Option<TcpListenOptions>>) -> (r: Vec<(usize, String)>)
        ensures
            plan_view(r@) == spec_bind_plan(targets@),
    {
        let mut r: Vec<(usize, String)> = Vec::new();
        for i in 0..targets.len()
            invariant
                plan_view(r@) == spec_bind_plan(targets@.take(i as int)),
        {
            proof {
                assert(targets@.take(i + 1).drop_last() == targets@.take(i as int));
            }
            match &targets[i] {
                Some(o) => {
                    let ghost before = r@;
                    r.push((i, bind_address(o)));
                    assert(plan_view(r@) == plan_view(before).push(
                        (i as int, bind_address_text(o.listen_address@, o.listen_port)),
                    ));
                },
                None => {},
            }
        }
        assert(targets@.take(targets@.len() as int) == targets@);
        r
    }
}

/// The listeners are exactly the `Tcp` targets, in order: every entry
/// names a `Tcp` target's position and binds that target's own address, every
/// `Tcp` target gets a listener, and positions strictly increase (so no
/// target gets two).
pub proof fn law_bind_plan_is_one_listener_per_tcp_target(targets: Seq<Option<TcpListenOptions>>)
    ensures
        ({
            let plan = spec_bind_plan(targets);
            &&& forall|k: int| #![trigger plan[k]] 0 <= k < plan.len() ==> {
                &&& 0 <= plan[k].0 < targets.len()
                &&& targets[plan[k].0] matches Some(o)
                &&& plan[k].1 == bind_address_text(o.listen_address@, o.listen_port)
            }
            &&& forall|i: int| #![trigger targets[i]] 0 <= i < targets.len() && targets[i] is Some
                ==> exists|k: int| 0 <= k < plan.len() && #[trigger] plan[k].0 == i
            &&& forall|k: int, l: int| 0 <= k < l < plan.len() ==> plan[k].0 < plan[l].0
        }),
    decreases targets.len(),
{
    if targets.len() > 0 {
        let prev = targets.drop_last();
        law_bind_plan_is_one_listener_per_tcp_target(prev);
        let rest = spec_bind_plan(prev);
        let plan = spec_bind_plan(targets);
        assert forall|k: int| 0 <= k < rest.len() implies rest[k].0 < targets.len() - 1 by {
            assert(rest[k].0 < prev.len());
        }
        assert forall|i: int| #![trigger targets[i]] 0 <= i < targets.len() && targets[i] is Some
            implies exists|k: int| 0 <= k < plan.len() && #[trigger] plan[k].0 == i by {
            if i < targets.len() - 1 {
                assert(prev[i] == targets[i]);
                let k = choose|k: int| 0 <= k < rest.len() && #[trigger] rest[k].0 == i;
                assert(plan[k] == rest[k]);
            } else {
                assert(plan[rest.len() as int].0 == i);
            }
        }
        assert forall|k: int| #![trigger plan[k]] 0 <= k < plan.len() implies {
            &&& 0 <= plan[k].0 < targets.len()
            &&& targets[plan[k].0] matches Some(o)
            &&& plan[k].1 == bind_address_text(o.listen_address@, o.listen_port)
        } by {
            if k < rest.len() {
                assert(plan[k] == rest[k]);
                assert(prev[rest[k].0] == targets[rest[k].0]);
            }
        }
        assert forall|k: int, l: int| 0 <= k < l < plan.len() implies plan[k].0 < plan[l].0 by {
            if l < rest.len() {
                assert(plan[k] == rest[k]);
                assert(plan[l] == rest[l]);
            } else {
                assert(plan[k] == rest[k]);
            }
        }
    }
}

/// How a backend connection uses TLS.
#[derive(Clone, Copy, Debug, PartialEq, Eq, Structural)]
pub enum TlsMode {
    Disabled,
    Preferred,
    Required,
}

/// The settings of the TLS connector for a backend.
#[derive(Clone, Copy, Debug, PartialEq, Eq, Structural)]
pub struct TlsConnectorFlags {
    pub accept_invalid_certs: bool,
    pub accept_invalid_hostname: bool,
}

/// Whether and how a backend connection is upgraded to TLS: not at all when
/// TLS is disabled; otherwise with hostname verification always on and
/// certificate verification as configured.
pub fn backend_tls(mode: TlsMode, verify: bool) -> (r: Option<TlsConnectorFlags>)
    ensures
        r == (if mode == TlsMode::Disabled {
            None
        } else {
            Some(TlsConnectorFlags { accept_invalid_certs: !verify, accept_invalid_hostname: false })
        }),
{
    if matches!(mode, TlsMode::Disabled) {
        None
    } else {
        Some(TlsConnectorFlags { accept_invalid_certs: !verify, accept_invalid_hostname: false })
    }
}

} // verus!
