//! Keeping the voters of a cluster in line with the nodes that discovery
//! finds: each poll adds the new nodes and removes the vanished ones.
use crate::raft::discovery::HeadlessServiceDiscovery;
use crate::raft::idset::IdSet;
use crate::text::{decimal, decimal_string, has_suffix, strip_suffix, without_suffix};
use vstd::prelude::*;

verus! {

/// The nodes to add and to remove after a poll.
#[derive(Debug)]
pub struct MembershipChanges {
    pub added: IdSet,
    pub removed: IdSet,
}

/// The nodes found at the last successful poll.
#[derive(Debug)]
pub struct MembershipWatch {
    known: IdSet,
}

impl View for MembershipWatch {
    type V = Set<u64>;

    closed spec fn view(&self) -> Set<u64> {
        self.known@
    }
}

impl MembershipWatch {
    /// No node found yet.
    pub fn new() -> (w: Self)
        ensures
            w@ == Set::<u64>::empty(),
    {
        MembershipWatch { known: IdSet::new() }
    }

    /// The nodes found at the last successful poll.
    pub fn known(&self) -> (r: &IdSet)
        ensures
            r@ == self@,
    {
        &self.known
    }

    /// Takes in the outcome of a poll: only a leader acts on it, and only
    /// when discovery answered. Then the nodes found and not known are
    /// added, the nodes known and not found are removed, and the nodes
    /// found become the known ones. Otherwise nothing changes.
    pub fn observe(&mut self, is_leader: bool, discovered: Option<IdSet>) -> (c: Option<
        MembershipChanges,
    >)
        ensures
            match (is_leader, discovered) {
                (true, Some(d)) => c matches Some(ch) && ch.added@ == d@.difference(old(self)@)
                    && ch.removed@ == old(self)@.difference(d@) && final(self)@ == d@,
                _ => c is None && final(self)@ == old(self)@,
            },
    {
        if !is_leader {
            return None;
        }
        match discovered {
            Some(current) => {
                let added = current.difference(&self.known);
                let removed = self.known.difference(&current);
                self.known = current;
                Some(MembershipChanges { added, removed })
            },
            None => None,
        }
    }
}

/// Removing the nodes a poll removes and adding those it adds turns the
/// known nodes into the nodes found.
pub proof fn law_changes_reach_discovered(known: Set<u64>, found: Set<u64>)
    ensures
        known.difference(known.difference(found)).union(found.difference(known)) == found,
{
    assert(known.difference(known.difference(found)).union(found.difference(known)) =~= found);
}

/// The address of peer `peer` of a service: the service's name without
/// its `-headless` ending, a dash and the peer's ordinal, under the
/// service's DNS name, with the service's port.
pub open spec fn peer_address_text(service: Seq<char>, namespace: Seq<char>, port: u16, peer: u64) -> Seq<
    char,
> {
    let base = if has_suffix(service, "-headless"@) {
        without_suffix(service, "-headless"@)
    } else {
        service
    };
    base + "-"@ + decimal(peer as nat) + "."@ + service + "."@ + namespace + ".svc.cluster.local:"@
        + decimal(port as nat)
}

/// The address of a peer found by `discovery`.
pub fn peer_address(discovery: &HeadlessServiceDiscovery, peer_id: u64) -> (r: String)
    ensures
        r@ == peer_address_text(
            discovery@.service_name,
            discovery@.namespace,
            discovery@.port,
            peer_id,
        ),
{
    let service = discovery.service_name();
    let base = match strip_suffix(service, "-headless") {
        Some(b) => b,
        None => service,
    };
    crate::text::text(base).concat("-").concat(decimal_string(peer_id).as_str()).concat(".").concat(
        service,
    ).concat(".").concat(discovery.namespace()).concat(".svc.cluster.local:").concat(
        decimal_string(discovery.port() as u64).as_str(),
    )
}

} // verus!
