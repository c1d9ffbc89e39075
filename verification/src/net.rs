//! Choices of the ICE gatherer: which local addresses to use and which candidates
//! to gather.
use vstd::prelude::*;
use crate::engine::IcePolicy;

verus! {

/// An IPv4 address usable for host candidates: not loopback (127/8), not link-local
/// (169.254/16), not the broadcast address.
pub open spec fn usable_host_address(a: [u8; 4]) -> bool {
    &&& a[0] != 127
    &&& !(a[0] == 169 && a[1] == 254)
    &&& !(a[0] == 255 && a[1] == 255 && a[2] == 255 && a[3] == 255)
}

/// Errors of candidate gathering.
#[derive(Clone, Copy, Debug, PartialEq, Eq, Structural)]
pub enum GatherError {
    /// No network interface has a usable address.
    IceNoNetworkInterface,
    /// The STUN server gave no reflexive address for an interface.
    IceStunForInterface,
}

/// The usable host addresses among the IPv4 addresses of the machine's interfaces,
/// in order; an error when there is none.
pub fn filter_host_addresses(addrs: &[[u8; 4]]) -> (r: Result<Vec<[u8; 4]>, GatherError>)
    ensures
        ({
            let kept = addrs@.filter(|a: [u8; 4]| usable_host_address(a));
            match r {
                Ok(v) => v@ == kept && kept.len() > 0,
                Err(e) => e == GatherError::IceNoNetworkInterface && kept.len() == 0,
            }
        }),
{
    let mut hosts: Vec<[u8; 4]> = Vec::new();
    let mut i: usize = 0;
    while i < addrs.len()
        invariant
            i <= addrs@.len(),
            hosts@ == addrs@.take(i as int).filter(|a: [u8; 4]| usable_host_address(a)),
        decreases addrs@.len() - i,
    {
        let a = addrs[i];
        let is_loopback = a[0] == 127;
        let is_link_local = a[0] == 169 && a[1] == 254;
        let is_broadcast = a[0] == 255 && a[1] == 255 && a[2] == 255 && a[3] == 255;
        if !is_loopback && !is_link_local && !is_broadcast {
            hosts.push(a);
        }
        proof {
            reveal(Seq::filter);
            assert(addrs@.take(i + 1).drop_last() == addrs@.take(i as int));
        }
        i = i + 1;
    }
    assert(addrs@.take(addrs@.len() as int) == addrs@);
    if hosts.len() == 0 {
        Err(GatherError::IceNoNetworkInterface)
    } else {
        Ok(hosts)
    }
}

/// Which candidate kinds to gather on each address.
#[derive(Clone, Copy, Debug, PartialEq, Eq, Structural)]
pub struct GatherPlan {
    /// Host and server-reflexive (STUN) candidates.
    pub host_and_reflexive: bool,
    /// Relayed (TURN) candidates.
    pub relayed: bool,
}

/// The candidates a policy gathers: local ones for `Local` and `All`, relayed ones
/// for `Relay` and `All`.
pub fn gather_plan(policy: IcePolicy) -> (p: GatherPlan)
    ensures
        p.host_and_reflexive == (policy == IcePolicy::Local || policy == IcePolicy::All),
        p.relayed == (policy == IcePolicy::Relay || policy == IcePolicy::All),
{
    GatherPlan {
        host_and_reflexive: matches!(policy, IcePolicy::Local | IcePolicy::All),
        relayed: matches!(policy, IcePolicy::Relay | IcePolicy::All),
    }
}

} // verus!
