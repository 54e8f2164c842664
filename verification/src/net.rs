//! Addresses, endpoints and address sets.

use vstd::prelude::*;

verus! {

/// An IP address, held as the integer value of its octets in network order.
#[derive(Clone, Copy, Debug, PartialEq, Eq, Structural)]
pub enum IpAddr {
    V4(u32),
    V6(u128),
}

/// The loopback address `127.0.0.1`.
pub const LOCALHOST_V4: u32 = 0x7f00_0001;

impl IpAddr {
    /// The IPv4 loopback address.
    pub fn localhost() -> (ip: IpAddr)
        ensures
            ip == IpAddr::V4(LOCALHOST_V4),
    {
        IpAddr::V4(LOCALHOST_V4)
    }
}

/// Transport protocol of an endpoint.
#[derive(Clone, Copy, Debug, PartialEq, Eq, Structural)]
pub enum TransportProtocol {
    Udp,
    Tcp,
}

/// An address and port.
#[derive(Clone, Copy, Debug, PartialEq, Eq, Structural)]
pub struct SocketAddr {
    pub ip: IpAddr,
    pub port: u16,
}

/// A socket address together with the protocol spoken on it.
#[derive(Clone, Copy, Debug, PartialEq, Eq, Structural)]
pub struct Endpoint {
    pub address: SocketAddr,
    pub protocol: TransportProtocol,
}

/// Whether `a` comes before `b`: every IPv4 address comes before every
/// IPv6 address, and two addresses of one family are ordered by value.
pub open spec fn ip_before(a: IpAddr, b: IpAddr) -> bool {
    match (a, b) {
        (IpAddr::V4(x), IpAddr::V4(y)) => x < y,
        (IpAddr::V4(_), IpAddr::V6(_)) => true,
        (IpAddr::V6(_), IpAddr::V4(_)) => false,
        (IpAddr::V6(x), IpAddr::V6(y)) => x < y,
    }
}

/// Whether each address of `list` comes before all that follow it.
pub open spec fn ascending(list: Seq<IpAddr>) -> bool {
    forall|i: int, j: int|
        0 <= i < j < list.len() ==> ip_before(#[trigger] list[i], #[trigger] list[j])
}

/// A list in which each address comes before all that follow holds none
/// twice.
pub proof fn lemma_ascending_is_unique(list: Seq<IpAddr>)
    requires
        ascending(list),
    ensures
        list.no_duplicates(),
{
    assert forall|i: int, j: int|
        0 <= i < list.len() && 0 <= j < list.len() && i != j implies list[i] != list[j] by {
        if i < j {
            assert(ip_before(list[i], list[j]));
        } else {
            assert(ip_before(list[j], list[i]));
        }
    }
}

/// Whether `a` comes before `b`.
pub fn comes_before(a: IpAddr, b: IpAddr) -> (before: bool)
    ensures
        before == ip_before(a, b),
{
    match (a, b) {
        (IpAddr::V4(x), IpAddr::V4(y)) => x < y,
        (IpAddr::V4(_), IpAddr::V6(_)) => true,
        (IpAddr::V6(_), IpAddr::V4(_)) => false,
        (IpAddr::V6(x), IpAddr::V6(y)) => x < y,
    }
}

/// A finite set of IP addresses, kept in ascending order: no address is
/// stored twice, and the set is walked from its least address up.
#[derive(Debug)]
pub struct IpSet {
    addrs: Vec<IpAddr>,
}

impl View for IpSet {
    type V = Set<IpAddr>;

    closed spec fn view(&self) -> Set<IpAddr> {
        self.addrs@.to_set()
    }
}

impl IpSet {
    #[verifier::type_invariant]
    spec fn in_ascending_order(self) -> bool {
        ascending(self.addrs@)
    }

    /// The empty set.
    pub fn new() -> (set: IpSet)
        ensures
            set@ == Set::<IpAddr>::empty(),
    {
        let set = IpSet { addrs: Vec::new() };
        assert(set.addrs@.to_set() =~= Set::<IpAddr>::empty());
        set
    }

    /// Number of addresses in the set.
    pub fn len(&self) -> (n: usize)
        ensures
            n == self@.len(),
    {
        proof {
            use_type_invariant(self);
            lemma_ascending_is_unique(self.addrs@);
            self.addrs@.unique_seq_to_set();
        }
        self.addrs.len()
    }

    /// Whether `ip` is a member.
    pub fn contains(&self, ip: IpAddr) -> (found: bool)
        ensures
            found == self@.contains(ip),
    {
        let mut i: usize = 0;
        while i < self.addrs.len()
            invariant
                i <= self.addrs.len(),
                forall|j: int| 0 <= j < i ==> self.addrs@[j] != ip,
            decreases self.addrs.len() - i,
        {
            if self.addrs[i] == ip {
                return true;
            }
            i += 1;
        }
        false
    }

    /// Adds `ip` at its place in the order; the result tells whether it
    /// was absent before.
    pub fn insert(&mut self, ip: IpAddr) -> (fresh: bool)
        ensures
            fresh == !old(self)@.contains(ip),
            final(self)@ == old(self)@.insert(ip),
    {
        proof {
            use_type_invariant(&*self);
        }
        let ghost before = self.addrs@;
        let mut at: usize = 0;
        while at < self.addrs.len() && comes_before(self.addrs[at], ip)
            invariant
                at <= self.addrs.len(),
                self.addrs@ == before,
                ascending(before),
                forall|j: int| 0 <= j < at ==> ip_before(#[trigger] before[j], ip),
            decreases self.addrs.len() - at,
        {
            at += 1;
        }
        if at < self.addrs.len() && self.addrs[at] == ip {
            assert(before.contains(ip));
            assert(self@.insert(ip) =~= self@);
            false
        } else {
            assert forall|j: int| at <= j < before.len() implies ip_before(
                ip,
                #[trigger] before[j],
            ) by {
                assert(!ip_before(before[at as int], ip) && before[at as int] != ip);
                if j > at {
                    assert(ip_before(before[at as int], before[j]));
                }
            }
            assert(!before.contains(ip)) by {
                if before.contains(ip) {
                    let k = choose|k: int| 0 <= k < before.len() && before[k] == ip;
                    if k < at {
                        assert(ip_before(before[k], ip));
                    } else {
                        assert(ip_before(ip, before[k]));
                    }
                }
            }
            let mut addrs = self.addrs.clone();
            addrs.insert(at, ip);
            let ghost after = before.insert(at as int, ip);
            assert(addrs@ == after);
            assert(ascending(after)) by {
                assert forall|i: int, j: int| 0 <= i < j < after.len() implies ip_before(
                    #[trigger] after[i],
                    #[trigger] after[j],
                ) by {
                    if j < at {
                        assert(after[i] == before[i] && after[j] == before[j]);
                    } else if j == at {
                        assert(after[i] == before[i]);
                    } else if i < at {
                        assert(after[i] == before[i] && after[j] == before[j - 1]);
                        assert(ip_before(before[i], ip) && ip_before(ip, before[j - 1]));
                    } else if i == at {
                        assert(after[j] == before[j - 1]);
                    } else {
                        assert(after[i] == before[i - 1] && after[j] == before[j - 1]);
                    }
                }
            }
            self.addrs = addrs;
            assert(self.addrs@.to_set() =~= before.to_set().insert(ip)) by {
                assert forall|a: IpAddr| after.contains(a) <==> (before.contains(a) || a == ip) by {
                    if before.contains(a) {
                        let k = choose|k: int| 0 <= k < before.len() && before[k] == a;
                        if k < at {
                            assert(after[k] == a);
                        } else {
                            assert(after[k + 1] == a);
                        }
                    }
                    if a == ip {
                        assert(after[at as int] == a);
                    }
                    if after.contains(a) {
                        let k = choose|k: int| 0 <= k < after.len() && after[k] == a;
                        if k < at {
                            assert(before[k] == a);
                        } else if k > at {
                            assert(before[k - 1] == a);
                        }
                    }
                }
            }
            true
        }
    }

    /// Adds every address of `list`; the result tells whether one of
    /// them was absent before.
    pub fn extend(&mut self, list: &Vec<IpAddr>) -> (fresh: bool)
        ensures
            final(self)@ == old(self)@.union(list@.to_set()),
            fresh == exists|i: int|
                0 <= i < list.len() && !old(self)@.contains(#[trigger] list@[i]),
    {
        let ghost before = self@;
        let mut fresh = false;
        let mut i: usize = 0;
        assert(self@ =~= before.union(list@.take(0).to_set()));
        while i < list.len()
            invariant
                i <= list.len(),
                self@ == before.union(list@.take(i as int).to_set()),
                fresh == exists|j: int| 0 <= j < i && !before.contains(#[trigger] list@[j]),
            decreases list.len() - i,
        {
            let ghost shorter = list@.take(i as int);
            let ghost longer = list@.take(i as int + 1);
            let ip = list[i];
            let added = self.insert(ip);
            proof {
                assert(longer =~= shorter.push(ip));
                assert forall|a: IpAddr|
                    longer.contains(a) <==> (shorter.contains(a) || a == ip) by {
                    if shorter.contains(a) {
                        let k = choose|k: int| 0 <= k < shorter.len() && shorter[k] == a;
                        assert(longer[k] == a);
                    }
                    if a == ip {
                        assert(longer[shorter.len() as int] == a);
                    }
                }
                assert(self@ =~= before.union(longer.to_set()));
                if !added && !before.contains(ip) {
                    let k = choose|k: int| 0 <= k < shorter.len() && shorter[k] == ip;
                    assert(list@[k] == ip);
                }
            }
            fresh = fresh || added;
            i += 1;
        }
        assert(list@.take(list.len() as int) =~= list@);
        fresh
    }

    /// The set of the addresses in `list`.
    pub fn from_list(list: &Vec<IpAddr>) -> (set: IpSet)
        ensures
            set@ == list@.to_set(),
    {
        let mut set = IpSet::new();
        let mut i: usize = 0;
        while i < list.len()
            invariant
                i <= list.len(),
                set@ == list@.take(i as int).to_set(),
            decreases list.len() - i,
        {
            let ghost before = set@;
            set.insert(list[i]);
            assert(list@.take(i as int + 1) =~= list@.take(i as int).push(list@[i as int]));
            assert(list@.take(i as int + 1).to_set() =~= before.insert(list@[i as int])) by {
                let shorter = list@.take(i as int);
                let longer = shorter.push(list@[i as int]);
                assert forall|a: IpAddr|
                    longer.contains(a) <==> (shorter.contains(a) || a == list@[i as int]) by {
                    if shorter.contains(a) {
                        let k = choose|k: int| 0 <= k < shorter.len() && shorter[k] == a;
                        assert(longer[k] == a);
                    }
                    if a == list@[i as int] {
                        assert(longer[shorter.len() as int] == a);
                    }
                }
            }
            i += 1;
        }
        assert(list@.take(list.len() as int) =~= list@);
        set
    }

    /// The members as a list, in ascending order and so each once.
    pub fn to_vec(&self) -> (list: Vec<IpAddr>)
        ensures
            ascending(list@),
            list@.no_duplicates(),
            list@.to_set() == self@,
    {
        proof {
            use_type_invariant(self);
            lemma_ascending_is_unique(self.addrs@);
        }
        self.addrs.clone()
    }

    /// A copy of the set.
    pub fn duplicate(&self) -> (copy: IpSet)
        ensures
            copy@ == self@,
    {
        proof {
            use_type_invariant(self);
        }
        IpSet { addrs: self.addrs.clone() }
    }
}

/// A DNS configuration: the interface it is bound to and its servers.
#[derive(Debug)]
pub struct DnsConfig {
    pub interface: String,
    pub servers: Vec<IpAddr>,
}

/// Mathematical content of a [`DnsConfig`].
pub struct DnsConfigView {
    pub interface: Seq<char>,
    pub servers: Seq<IpAddr>,
}

impl View for DnsConfig {
    type V = DnsConfigView;

    open spec fn view(&self) -> DnsConfigView {
        DnsConfigView { interface: self.interface@, servers: self.servers@ }
    }
}

impl DnsConfig {
    /// A copy of the configuration.
    pub fn duplicate(&self) -> (copy: DnsConfig)
        ensures
            copy@ == self@,
    {
        DnsConfig { interface: self.interface.clone(), servers: self.servers.clone() }
    }
}

/// What the tunnel monitor reports about a tunnel that has come up.
#[derive(Debug)]
pub struct TunnelMetadata {
    /// Name of the tunnel interface.
    pub interface: String,
    /// The remote endpoint the tunnel is connected to.
    pub endpoint: Endpoint,
    /// The resolvers the tunnel intends its traffic to use.
    pub resolvers: Vec<IpAddr>,
}

/// Mathematical content of a [`TunnelMetadata`].
pub struct TunnelMetadataView {
    pub interface: Seq<char>,
    pub endpoint: Endpoint,
    pub resolvers: Seq<IpAddr>,
}

impl View for TunnelMetadata {
    type V = TunnelMetadataView;

    open spec fn view(&self) -> TunnelMetadataView {
        TunnelMetadataView {
            interface: self.interface@,
            endpoint: self.endpoint,
            resolvers: self.resolvers@,
        }
    }
}

impl TunnelMetadata {
    /// A copy of the metadata.
    pub fn duplicate(&self) -> (copy: TunnelMetadata)
        ensures
            copy@ == self@,
    {
        TunnelMetadata {
            interface: self.interface.clone(),
            endpoint: self.endpoint,
            resolvers: self.resolvers.clone(),
        }
    }
}

/// View of an optional DNS configuration.
pub open spec fn dns_config_view(config: Option<DnsConfig>) -> Option<DnsConfigView> {
    match config {
        Some(c) => Some(c@),
        None => None,
    }
}

/// View of an optional server list.
pub open spec fn servers_view(servers: Option<Vec<IpAddr>>) -> Option<Seq<IpAddr>> {
    match servers {
        Some(s) => Some(s@),
        None => None,
    }
}

/// A copy of an optional server list.
pub fn duplicate_servers(servers: &Option<Vec<IpAddr>>) -> (copy: Option<Vec<IpAddr>>)
    ensures
        servers_view(copy) == servers_view(*servers),
{
    match servers {
        Some(s) => Some(s.clone()),
        None => None,
    }
}

} // verus!
