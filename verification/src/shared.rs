//! The settings and collaborator records that every state works on.

use vstd::prelude::*;
use vstd::multiset::Multiset;
use crate::effect::{effects_view, AckError, AckId, Effect, EffectView};
use crate::firewall::{FirewallStatus, FirewallStatusView};
use crate::net::{duplicate_servers, servers_view, DnsConfig, DnsConfigView, Endpoint, IpAddr};

verus! {

/// The platform mechanisms that are present. Fixed at startup.
#[derive(Clone, Copy, Debug, PartialEq, Eq, Structural)]
pub struct Capabilities {
    /// A driver that excludes applications from the tunnel.
    pub split_tunnel: bool,
    /// A local resolver that the system can be pointed at.
    pub custom_resolver: bool,
    /// A provider of tunnel devices that must be closed explicitly.
    pub tun_provider: bool,
    /// A connectivity check that is restarted when the tunnel goes away.
    pub connectivity_check: bool,
}

/// What the DNS monitor has last been told.
#[derive(Debug)]
pub enum DnsStatus {
    /// The system's own configuration is in force.
    System,
    /// The configuration of the last request.
    Configured(DnsConfig),
}

/// Mathematical content of a [`DnsStatus`].
pub enum DnsStatusView {
    System,
    Configured(DnsConfigView),
}

impl View for DnsStatus {
    type V = DnsStatusView;

    open spec fn view(&self) -> DnsStatusView {
        match *self {
            DnsStatus::System => DnsStatusView::System,
            DnsStatus::Configured(config) => DnsStatusView::Configured(config@),
        }
    }
}

/// What the firewall enforces after the requests of `history`, in order.
pub open spec fn firewall_after(history: Seq<EffectView>) -> FirewallStatusView
    decreases history.len(),
{
    if history.len() == 0 {
        FirewallStatusView::Unfiltered
    } else {
        match history.last() {
            EffectView::ApplyFirewallPolicy(policy) => FirewallStatusView::Applied(policy),
            EffectView::ResetFirewallPolicy => FirewallStatusView::Unfiltered,
            _ => firewall_after(history.drop_last()),
        }
    }
}

/// Which DNS configuration is in force after the requests of `history`.
pub open spec fn dns_after(history: Seq<EffectView>) -> DnsStatusView
    decreases history.len(),
{
    if history.len() == 0 {
        DnsStatusView::System
    } else {
        match history.last() {
            EffectView::SetDns(config) => DnsStatusView::Configured(config),
            EffectView::ResetDns => DnsStatusView::System,
            _ => dns_after(history.drop_last()),
        }
    }
}

/// How many requests of `history` reset the DNS configuration.
pub open spec fn dns_resets_in(history: Seq<EffectView>) -> nat
    decreases history.len(),
{
    if history.len() == 0 {
        0
    } else {
        dns_resets_in(history.drop_last()) + if history.last() is ResetDns {
            1nat
        } else {
            0nat
        }
    }
}

/// How many requests of `history` change what the firewall enforces.
pub open spec fn firewall_requests_in(history: Seq<EffectView>) -> nat
    decreases history.len(),
{
    if history.len() == 0 {
        0
    } else {
        firewall_requests_in(history.drop_last()) + if history.last().touches_firewall() {
            1nat
        } else {
            0nat
        }
    }
}

/// How many requests of `history` announce a transition.
pub open spec fn announcements_in(history: Seq<EffectView>) -> nat
    decreases history.len(),
{
    if history.len() == 0 {
        0
    } else {
        announcements_in(history.drop_last()) + if history.last() is Notify {
            1nat
        } else {
            0nat
        }
    }
}

/// The acknowledgment channels that the requests of `history` answer, each
/// as often as it is answered.
pub open spec fn answers_in(history: Seq<EffectView>) -> Multiset<AckId>
    decreases history.len(),
{
    if history.len() == 0 {
        Multiset::empty()
    } else {
        match history.last().answered() {
            Some(ack) => answers_in(history.drop_last()).insert(ack),
            None => answers_in(history.drop_last()),
        }
    }
}

/// The one aggregate that the states mutate: the user's settings, the
/// record of what each collaborator was last told, and the requests that
/// the driver has yet to carry out.
pub struct SharedTunnelStateValues {
    /// Whether traffic to the local network passes.
    pub allow_lan: bool,
    /// The endpoint exempted from blocking.
    pub allowed_endpoint: Option<Endpoint>,
    /// Whether all traffic is blocked while no tunnel is up.
    pub block_when_disconnected: bool,
    /// The DNS servers chosen by the user, if any.
    pub dns_servers: Option<Vec<IpAddr>>,
    /// Whether the host is known to be offline.
    pub is_offline: bool,
    /// Whether the system is to use the local resolver.
    pub enable_custom_resolver: bool,
    /// The platform mechanisms that are present.
    pub capabilities: Capabilities,
    /// What the firewall was last told.
    pub firewall: FirewallStatus,
    /// What the DNS monitor was last told.
    pub dns: DnsStatus,
    /// The requests that the driver has not taken yet, oldest first.
    pub requests: Vec<Effect>,
    /// Every request made so far, oldest first.
    pub history: Ghost<Seq<EffectView>>,
}

/// Mathematical content of a [`SharedTunnelStateValues`].
pub struct SharedView {
    pub allow_lan: bool,
    pub allowed_endpoint: Option<Endpoint>,
    pub block_when_disconnected: bool,
    pub dns_servers: Option<Seq<IpAddr>>,
    pub is_offline: bool,
    pub enable_custom_resolver: bool,
    pub capabilities: Capabilities,
    pub firewall: FirewallStatusView,
    pub dns: DnsStatusView,
    pub requests: Seq<EffectView>,
    pub history: Seq<EffectView>,
    /// How many requests so far reset the DNS configuration.
    pub dns_resets: nat,
    /// How many requests so far changed what the firewall enforces.
    pub firewall_requests: nat,
    /// How many requests so far announced a transition.
    pub announcements: nat,
    /// The acknowledgment channels answered so far.
    pub answers: Multiset<AckId>,
}

impl View for SharedTunnelStateValues {
    type V = SharedView;

    open spec fn view(&self) -> SharedView {
        SharedView {
            allow_lan: self.allow_lan,
            allowed_endpoint: self.allowed_endpoint,
            block_when_disconnected: self.block_when_disconnected,
            dns_servers: servers_view(self.dns_servers),
            is_offline: self.is_offline,
            enable_custom_resolver: self.enable_custom_resolver,
            capabilities: self.capabilities,
            firewall: self.firewall@,
            dns: self.dns@,
            requests: effects_view(self.requests@),
            history: self.history@,
            dns_resets: dns_resets_in(self.history@),
            firewall_requests: firewall_requests_in(self.history@),
            announcements: announcements_in(self.history@),
            answers: answers_in(self.history@),
        }
    }
}

impl SharedView {
    /// The records agree with the requests made: the firewall and DNS
    /// records and the tallies are what the whole history leaves in force,
    /// and every pending request is part of the history.
    pub open spec fn wf(self) -> bool {
        &&& self.firewall == firewall_after(self.history)
        &&& self.dns == dns_after(self.history)
        &&& forall|i: int|
            0 <= i < self.requests.len() ==> self.history.contains(#[trigger] self.requests[i])
        &&& self.dns_resets == dns_resets_in(self.history)
        &&& self.firewall_requests == firewall_requests_in(self.history)
        &&& self.announcements == announcements_in(self.history)
        &&& self.answers == answers_in(self.history)
    }

    /// The state after `effect` has been made known as carried out: it
    /// joins the history, and the firewall and DNS records follow it, but
    /// nothing is left for the driver to do.
    pub open spec fn record(self, effect: EffectView) -> SharedView {
        SharedView {
            firewall: match effect {
                EffectView::ApplyFirewallPolicy(policy) => FirewallStatusView::Applied(policy),
                EffectView::ResetFirewallPolicy => FirewallStatusView::Unfiltered,
                _ => self.firewall,
            },
            dns: match effect {
                EffectView::SetDns(config) => DnsStatusView::Configured(config),
                EffectView::ResetDns => DnsStatusView::System,
                _ => self.dns,
            },
            history: self.history.push(effect),
            dns_resets: self.dns_resets + if effect is ResetDns {
                1nat
            } else {
                0nat
            },
            firewall_requests: self.firewall_requests + if effect.touches_firewall() {
                1nat
            } else {
                0nat
            },
            announcements: self.announcements + if effect is Notify {
                1nat
            } else {
                0nat
            },
            answers: match effect.answered() {
                Some(ack) => self.answers.insert(ack),
                None => self.answers,
            },
            ..self
        }
    }

    /// The state after `effect` has been made known as carried out, where
    /// `carried_out` says that it was.
    pub open spec fn record_if(self, carried_out: bool, effect: EffectView) -> SharedView {
        if carried_out {
            self.record(effect)
        } else {
            self
        }
    }

    /// The state after `effect` has been requested: it is recorded and
    /// left for the driver to carry out.
    pub open spec fn issue(self, effect: EffectView) -> SharedView {
        SharedView { requests: self.requests.push(effect), ..self.record(effect) }
    }

    /// The state after `effect`, if there is one, has been requested.
    pub open spec fn issue_if(self, effect: Option<EffectView>) -> SharedView {
        match effect {
            Some(e) => self.issue(e),
            None => self,
        }
    }

    /// The state after the answer `result` has been requested for `ack`.
    pub open spec fn acknowledge(self, ack: AckId, result: Result<(), AckError>) -> SharedView {
        self.issue(EffectView::Acknowledge { ack, result })
    }

    /// Recording keeps the records in agreement with the history.
    pub broadcast proof fn lemma_record_wf(self, effect: EffectView)
        requires
            self.wf(),
        ensures
            (#[trigger] self.record(effect)).wf(),
    {
        let after = self.record(effect);
        assert(after.history.last() == effect);
        assert(after.history.drop_last() =~= self.history);
        assert forall|i: int| 0 <= i < after.requests.len() implies after.history.contains(
            #[trigger] after.requests[i],
        ) by {
            let k = choose|k: int|
                0 <= k < self.history.len() && self.history[k] == self.requests[i];
            assert(after.history[k] == after.requests[i]);
        }
    }

    /// Requesting keeps the records in agreement with the history.
    pub broadcast proof fn lemma_issue_wf(self, effect: EffectView)
        requires
            self.wf(),
        ensures
            (#[trigger] self.issue(effect)).wf(),
    {
        self.lemma_record_wf(effect);
        let recorded = self.record(effect);
        let after = self.issue(effect);
        assert forall|i: int| 0 <= i < after.requests.len() implies after.history.contains(
            #[trigger] after.requests[i],
        ) by {
            if i < recorded.requests.len() {
                assert(after.requests[i] == recorded.requests[i]);
            } else {
                assert(after.history[after.history.len() - 1] == after.requests[i]);
            }
        }
    }
}

/// Whether two server lists are the same list.
pub fn same_servers(left: &Option<Vec<IpAddr>>, right: &Option<Vec<IpAddr>>) -> (same: bool)
    ensures
        same == (servers_view(*left) == servers_view(*right)),
{
    match (left, right) {
        (None, None) => true,
        (Some(l), Some(r)) => {
            if l.len() != r.len() {
                return false;
            }
            let mut i: usize = 0;
            while i < l.len()
                invariant
                    i <= l.len(),
                    l.len() == r.len(),
                    servers_view(*left) == Some(l@),
                    servers_view(*right) == Some(r@),
                    forall|j: int| 0 <= j < i ==> l@[j] == r@[j],
                decreases l.len() - i,
            {
                if l[i] != r[i] {
                    assert(l@[i as int] != r@[i as int]);
                    return false;
                }
                i += 1;
            }
            assert(l@ =~= r@);
            true
        },
        _ => false,
    }
}

impl SharedTunnelStateValues {
    /// Well-formedness of the exec value: that of its view.
    pub open spec fn wf(&self) -> bool {
        self@.wf()
    }

    /// The shared values at startup: the given settings, nothing requested
    /// yet, firewall and DNS untouched.
    pub fn new(
        allow_lan: bool,
        block_when_disconnected: bool,
        dns_servers: Option<Vec<IpAddr>>,
        allowed_endpoint: Option<Endpoint>,
        capabilities: Capabilities,
    ) -> (shared: SharedTunnelStateValues)
        ensures
            shared.wf(),
            shared@ == (SharedView {
                allow_lan,
                allowed_endpoint,
                block_when_disconnected,
                dns_servers: servers_view(dns_servers),
                is_offline: false,
                enable_custom_resolver: false,
                capabilities,
                firewall: FirewallStatusView::Unfiltered,
                dns: DnsStatusView::System,
                requests: Seq::empty(),
                history: Seq::empty(),
                dns_resets: 0,
                firewall_requests: 0,
                announcements: 0,
                answers: Multiset::empty(),
            }),
    {
        let shared = SharedTunnelStateValues {
            allow_lan,
            allowed_endpoint,
            block_when_disconnected,
            dns_servers,
            is_offline: false,
            enable_custom_resolver: false,
            capabilities,
            firewall: FirewallStatus::Unfiltered,
            dns: DnsStatus::System,
            requests: Vec::new(),
            history: Ghost(Seq::empty()),
        };
        assert(shared@.requests =~= Seq::empty());
        shared
    }

    /// Makes `effect` known as carried out: it joins the history, and the
    /// firewall and DNS records follow it.
    pub fn record(&mut self, effect: &Effect)
        ensures
            final(self)@ == old(self)@.record(effect@),
            old(self).wf() ==> final(self).wf(),
    {
        proof {
            if self.wf() {
                self@.lemma_record_wf(effect@);
            }
            assert(self.history@.push(effect@).drop_last() =~= self.history@);
        }
        match effect {
            Effect::ApplyFirewallPolicy(policy) => {
                self.firewall = FirewallStatus::Applied(policy.duplicate());
            },
            Effect::ResetFirewallPolicy => {
                self.firewall = FirewallStatus::Unfiltered;
            },
            Effect::SetDns(config) => {
                self.dns = DnsStatus::Configured(config.duplicate());
            },
            Effect::ResetDns => {
                self.dns = DnsStatus::System;
            },
            _ => {},
        }
        self.history = Ghost(self.history@.push(effect@));
    }

    /// Requests `effect`: it is recorded and joins the pending requests.
    pub fn issue(&mut self, effect: Effect)
        ensures
            final(self)@ == old(self)@.issue(effect@),
            old(self).wf() ==> final(self).wf(),
    {
        proof {
            if self.wf() {
                self@.lemma_issue_wf(effect@);
            }
        }
        self.record(&effect);
        self.requests.push(effect);
        assert(effects_view(self.requests@) =~= effects_view(old(self).requests@).push(effect@));
    }

    /// Requests that `result` be sent on the channel `ack`.
    pub fn acknowledge(&mut self, ack: AckId, result: Result<(), AckError>)
        ensures
            final(self)@ == old(self)@.acknowledge(ack, result),
            old(self).wf() ==> final(self).wf(),
    {
        self.issue(Effect::Acknowledge { ack, result });
    }

    /// Hands the pending requests to the driver, oldest first, and leaves
    /// none pending.
    pub fn take_requests(&mut self) -> (taken: Vec<Effect>)
        ensures
            effects_view(taken@) == old(self)@.requests,
            final(self)@ == (SharedView { requests: Seq::empty(), ..old(self)@ }),
            old(self).wf() ==> final(self).wf(),
    {
        let mut taken: Vec<Effect> = Vec::new();
        core::mem::swap(&mut taken, &mut self.requests);
        assert(effects_view(self.requests@) =~= Seq::empty());
        taken
    }

    /// Stores the allow-LAN setting.
    pub fn set_allow_lan(&mut self, allow_lan: bool)
        ensures
            final(self)@ == (SharedView { allow_lan, ..old(self)@ }),
    {
        self.allow_lan = allow_lan;
    }

    /// Stores the allowed endpoint; the result tells whether it differs
    /// from the one held before.
    pub fn set_allowed_endpoint(&mut self, endpoint: Endpoint) -> (changed: bool)
        ensures
            changed == (old(self)@.allowed_endpoint != Some(endpoint)),
            final(self)@ == (SharedView { allowed_endpoint: Some(endpoint), ..old(self)@ }),
    {
        let changed = match self.allowed_endpoint {
            Some(current) => current != endpoint,
            None => true,
        };
        self.allowed_endpoint = Some(endpoint);
        changed
    }

    /// Stores the DNS servers; the result tells whether they differ from
    /// the ones held before.
    pub fn set_dns_servers(&mut self, servers: Option<Vec<IpAddr>>) -> (changed: bool)
        ensures
            changed == (old(self)@.dns_servers != servers_view(servers)),
            final(self)@ == (SharedView { dns_servers: servers_view(servers), ..old(self)@ }),
    {
        let changed = !same_servers(&self.dns_servers, &servers);
        self.dns_servers = servers;
        changed
    }

    /// A copy of the DNS servers chosen by the user.
    pub fn dns_servers(&self) -> (servers: Option<Vec<IpAddr>>)
        ensures
            servers_view(servers) == self@.dns_servers,
    {
        duplicate_servers(&self.dns_servers)
    }
}

} // verus!
