//! Finding the peers of a node behind a headless service.
use crate::raft::idset::IdSet;
use crate::text::{decimal, decimal_string, text};
use vstd::prelude::*;

verus! {

/// The headless service behind which the nodes of a cluster run.
#[derive(Clone, Debug)]
pub struct HeadlessServiceDiscovery {
    service_name: String,
    namespace: String,
    port: u16,
}

/// What a discovery names, as values.
pub struct DiscoveryView {
    pub service_name: Seq<char>,
    pub namespace: Seq<char>,
    pub port: u16,
}

impl View for HeadlessServiceDiscovery {
    type V = DiscoveryView;

    closed spec fn view(&self) -> DiscoveryView {
        DiscoveryView {
            service_name: self.service_name@,
            namespace: self.namespace@,
            port: self.port,
        }
    }
}

/// The DNS name of a service in a namespace.
pub open spec fn service_dns_name(service: Seq<char>, namespace: Seq<char>) -> Seq<char> {
    service + "."@ + namespace + ".svc.cluster.local"@
}

impl HeadlessServiceDiscovery {
    /// The service `service_name` in `namespace`, answering on `port`.
    pub fn new(service_name: &str, namespace: &str, port: u16) -> (d: Self)
        ensures
            d@.service_name == service_name@,
            d@.namespace == namespace@,
            d@.port == port,
    {
        HeadlessServiceDiscovery {
            service_name: text(service_name),
            namespace: text(namespace),
            port,
        }
    }

    /// The service's name.
    pub fn service_name(&self) -> (r: &str)
        ensures
            r@ == self@.service_name,
    {
        self.service_name.as_str()
    }

    /// The service's namespace.
    pub fn namespace(&self) -> (r: &str)
        ensures
            r@ == self@.namespace,
    {
        self.namespace.as_str()
    }

    /// The port the nodes answer on.
    pub fn port(&self) -> (r: u16)
        ensures
            r == self@.port,
    {
        self.port
    }

    /// The host and port to look up to find the nodes: the service's DNS
    /// name and the port.
    pub fn lookup_target(&self) -> (r: String)
        ensures
            r@ == service_dns_name(self@.service_name, self@.namespace) + ":"@ + decimal(
                self@.port as nat,
            ),
    {
        let r = self.service_name.clone().concat(".").concat(self.namespace.as_str()).concat(
            ".svc.cluster.local",
        ).concat(":").concat(decimal_string(self.port as u64).as_str());
        proof {
            assert(r@ =~= service_dns_name(self@.service_name, self@.namespace) + ":"@ + decimal(
                self@.port as nat,
            ));
        }
        r
    }
}

/// The peers found by a lookup that gave `count` addresses: the ids 0 to
/// `count - 1`, one per address in the order given.
pub fn peers_from_count(count: u64) -> (s: IdSet)
    ensures
        s@ == Set::new(|x: u64| x < count),
{
    let mut s = IdSet::new();
    let mut i: u64 = 0;
    while i < count
        invariant
            i <= count,
            s@ == Set::new(|x: u64| x < i),
        decreases count - i,
    {
        s.insert(i);
        proof {
            assert(s@ =~= Set::new(|x: u64| x < i + 1));
        }
        i = i + 1;
    }
    proof {
        assert(s@ =~= Set::new(|x: u64| x < count));
    }
    s
}

} // verus!
