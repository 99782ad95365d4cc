use vstd::prelude::*;

verus! {

/// Interval between two readiness polls, in milliseconds.
pub const POLL_INTERVAL_MS: u64 = 500;

/// The IPv4 configuration granted by DHCP. Addresses are written as
/// big-endian integers (`10.0.0.2` is `0x0a000002`).
#[derive(Clone, Copy, Debug, PartialEq, Eq, Structural)]
pub struct NetworkLease {
    pub address: u32,
    pub prefix_len: u8,
    pub gateway: Option<u32>,
}

/// How far the readiness check got on its latest poll.
#[derive(Clone, Copy, Debug, PartialEq, Eq, Structural)]
pub enum GatePhase {
    /// The data link is not up yet.
    AwaitingLink,
    /// The link is up; no address has been assigned yet.
    AwaitingAddress,
    /// Both conditions held: the waiting caller was released.
    Ready,
}

/// The answer to one readiness poll.
#[derive(Clone, Copy, Debug, PartialEq, Eq, Structural)]
pub enum GateStep {
    /// Sleep `ms` milliseconds, then poll again.
    Wait { ms: u64 },
    /// Both conditions hold: return to the caller with this lease.
    Ready { lease: NetworkLease },
}

/// Releases a waiting caller once the link is up and an address is assigned.
/// An address is never taken while the link is down, so a configuration left
/// over from an earlier association cannot release it.
#[derive(Clone, Copy, Debug, PartialEq, Eq, Structural)]
pub struct LinkReadinessGate {
    pub phase: GatePhase,
}

/// The phase that one poll of `link_up` and `lease` leads to.
pub open spec fn phase_after(link_up: bool, lease: Option<NetworkLease>) -> GatePhase {
    if !link_up {
        GatePhase::AwaitingLink
    } else if lease is Some {
        GatePhase::Ready
    } else {
        GatePhase::AwaitingAddress
    }
}

impl LinkReadinessGate {
    /// A gate that waits for the link first.
    pub fn new() -> (r: LinkReadinessGate)
        ensures
            r.phase == GatePhase::AwaitingLink,
    {
        LinkReadinessGate { phase: GatePhase::AwaitingLink }
    }

    /// The phase reached on the latest poll.
    pub fn phase(&self) -> (r: GatePhase)
        ensures
            r == self.phase,
    {
        self.phase
    }

    /// True once a poll found both the link up and an address.
    pub fn is_ready(&self) -> (r: bool)
        ensures
            r == (self.phase == GatePhase::Ready),
    {
        match self.phase {
            GatePhase::Ready => true,
            _ => false,
        }
    }

    /// One poll. `link_up` is the interface's link state; `lease` the
    /// address configuration, which is only looked at when the link is up.
    /// The caller is released on the very poll that sees both; otherwise it
    /// waits one poll interval.
    pub fn poll(&mut self, link_up: bool, lease: Option<NetworkLease>) -> (r: GateStep)
        ensures
            final(self).phase == phase_after(link_up, lease),
            !link_up ==> r == (GateStep::Wait { ms: POLL_INTERVAL_MS }),
            link_up && lease is None ==> r == (GateStep::Wait { ms: POLL_INTERVAL_MS }),
            link_up && lease is Some ==> r == (GateStep::Ready { lease: lease->0 }),
    {
        if !link_up {
            self.phase = GatePhase::AwaitingLink;
            return GateStep::Wait { ms: POLL_INTERVAL_MS };
        }
        match lease {
            Some(l) => {
                self.phase = GatePhase::Ready;
                GateStep::Ready { lease: l }
            },
            None => {
                self.phase = GatePhase::AwaitingAddress;
                GateStep::Wait { ms: POLL_INTERVAL_MS }
            },
        }
    }
}

} // verus!
