//! The disconnected state: no tunnel is running.

use vstd::prelude::*;
use vstd::string::StringExecFns;
use crate::command::{
    Event, Report, ResolverOutcomes, ResolverStep, SystemDnsRead, TunnelCommand,
};
use crate::effect::{paths_view, AckError, AckId, Effect, EffectView};
use crate::firewall::{FirewallPolicy, FirewallPolicyView};
use crate::net::{dns_config_view, DnsConfig, DnsConfigView, IpAddr, IpSet, LOCALHOST_V4};
use crate::shared::{SharedTunnelStateValues, SharedView};
use crate::transition::{ErrorStateCause, TunnelStateTransition};
use super::{ConsequenceView, EventConsequence, TunnelStateView, TunnelStateWrapper};
use super::connecting_state::{self, ConnectingState};
use super::error_state::{self, ErrorState};

verus! {

/// No tunnel is running.
#[derive(Debug)]
pub struct DisconnectedState {
    allowed_ips: IpSet,
    allowed_resolvers: IpSet,
}

/// Mathematical content of a [`DisconnectedState`].
pub struct DisconnectedView {
    /// The addresses that pass while traffic is blocked.
    pub allowed_ips: Set<IpAddr>,
    /// The resolvers that pass while traffic is blocked.
    pub allowed_resolvers: Set<IpAddr>,
}

impl View for DisconnectedState {
    type V = DisconnectedView;

    closed spec fn view(&self) -> DisconnectedView {
        DisconnectedView {
            allowed_ips: self.allowed_ips@,
            allowed_resolvers: self.allowed_resolvers@,
        }
    }
}

/// The interface on which the user's DNS servers are set while no tunnel
/// is up.
pub open spec fn loopback_interface() -> Seq<char> {
    "lo0"@
}

/// The DNS configuration that points the system at the local resolver.
pub open spec fn resolver_dns() -> DnsConfigView {
    DnsConfigView { interface: "lo"@, servers: seq![IpAddr::V4(LOCALHOST_V4)] }
}

/// The blocking policy of the disconnected state.
pub open spec fn blocked_policy(state: DisconnectedView, shared: SharedView) -> FirewallPolicyView {
    FirewallPolicyView::Blocked {
        allow_lan: shared.allow_lan,
        allowed_endpoint: shared.allowed_endpoint,
        allowed_ips: state.allowed_ips,
        allowed_resolvers: state.allowed_resolvers,
    }
}

/// The request that brings the firewall in line with the settings: the
/// blocking policy where traffic is to be blocked while disconnected;
/// else a reset where one is asked for; else none.
pub open spec fn firewall_request(
    state: DisconnectedView,
    shared: SharedView,
    should_reset_firewall: bool,
) -> Option<EffectView> {
    if shared.block_when_disconnected {
        Some(EffectView::ApplyFirewallPolicy(blocked_policy(state, shared)))
    } else if should_reset_firewall {
        Some(EffectView::ResetFirewallPolicy)
    } else {
        None
    }
}

/// The shared values after the firewall was brought in line.
pub open spec fn set_firewall_policy(
    state: DisconnectedView,
    shared: SharedView,
    should_reset_firewall: bool,
) -> SharedView {
    shared.issue_if(firewall_request(state, shared, should_reset_firewall))
}

/// The request to the split-tunnel driver: forget the addresses where the
/// firewall is reset and nothing is blocked, else register those of no
/// tunnel.
pub open spec fn split_tunnel_request(
    shared: SharedView,
    should_reset_firewall: bool,
) -> EffectView {
    if should_reset_firewall && !shared.block_when_disconnected {
        EffectView::ClearTunnelAddresses
    } else {
        EffectView::SetTunnelAddresses(None)
    }
}

/// The shared values after the split-tunnel driver, where there is one,
/// was told that no tunnel is up.
pub open spec fn register_split_tunnel_addresses(
    shared: SharedView,
    should_reset_firewall: bool,
) -> SharedView {
    if shared.capabilities.split_tunnel {
        shared.issue(split_tunnel_request(shared, should_reset_firewall))
    } else {
        shared
    }
}

/// The shared values after the user's DNS servers, where some are chosen,
/// were set on the loopback interface.
pub open spec fn set_dns(shared: SharedView) -> SharedView {
    match shared.dns_servers {
        Some(servers) => shared.issue(
            EffectView::SetDns(DnsConfigView { interface: loopback_interface(), servers }),
        ),
        None => shared,
    }
}

/// The shared values after a reset of DNS.
pub open spec fn reset_dns(shared: SharedView) -> SharedView {
    shared.issue(EffectView::ResetDns)
}

/// The allowed resolvers replaced by the servers of `config`, and the
/// firewall brought in line.
pub open spec fn reset_allowed_resolvers(
    state: DisconnectedView,
    config: Option<DnsConfigView>,
    shared: SharedView,
) -> (DisconnectedView, SharedView) {
    let replaced = DisconnectedView {
        allowed_resolvers: match config {
            Some(c) => c.servers.to_set(),
            None => Set::empty(),
        },
        ..state
    };
    (replaced, set_firewall_policy(replaced, shared, false))
}

/// Entering the disconnected state: nothing is allowed besides the
/// settings' exceptions. In order: the system is pointed at the local
/// resolver where that is switched on; the split-tunnel driver is told
/// that no tunnel is up; the firewall is brought in line; the
/// connectivity check is started afresh; a lingering tunnel device is
/// closed. Each step is taken only where the platform has the mechanism.
pub open spec fn enter(
    shared: SharedView,
    should_reset_firewall: bool,
) -> (DisconnectedView, SharedView) {
    let state = DisconnectedView {
        allowed_ips: Set::empty(),
        allowed_resolvers: Set::empty(),
    };
    let redirected = if shared.capabilities.custom_resolver && shared.enable_custom_resolver {
        shared.issue(EffectView::SetDns(resolver_dns()))
    } else {
        shared
    };
    let registered = register_split_tunnel_addresses(redirected, should_reset_firewall);
    let filtered = set_firewall_policy(state, registered, should_reset_firewall);
    let checked = if shared.capabilities.connectivity_check {
        filtered.issue(EffectView::ResetConnectivityCheck)
    } else {
        filtered
    };
    let closed = if shared.capabilities.tun_provider {
        checked.issue(EffectView::CloseTun)
    } else {
        checked
    };
    (state, closed)
}

/// Entering the disconnected state, as a consequence of a dispatch.
pub open spec fn enter_consequence(
    shared: SharedView,
    should_reset_firewall: bool,
) -> (ConsequenceView, SharedView) {
    let (state, after) = enter(shared, should_reset_firewall);
    (
        ConsequenceView::NewState(
            TunnelStateView::Disconnected(state),
            TunnelStateTransition::Disconnected,
        ),
        after,
    )
}

/// The request of the blocking policy that lets the resolvers of
/// `config` pass, and the state that holds them as allowed.
pub open spec fn allow_resolvers(
    state: DisconnectedView,
    config: Option<DnsConfigView>,
    shared: SharedView,
) -> (DisconnectedView, EffectView) {
    let replaced = DisconnectedView {
        allowed_resolvers: match config {
            Some(c) => c.servers.to_set(),
            None => Set::empty(),
        },
        ..state
    };
    (replaced, EffectView::ApplyFirewallPolicy(blocked_policy(replaced, shared)))
}

/// What a switch of the local resolver needs from a collaborator next,
/// given the answers so far: the step and its request, or nothing where
/// the machine can take its turn.
///
/// Switching off asks the resolver to stop. Switching on while traffic is
/// blocked reads the system's own DNS configuration, lets its resolvers
/// pass, has the resolver forward to them and points the system at the
/// resolver, each step only after the one before has succeeded.
pub open spec fn resolver_inquiry(
    state: DisconnectedView,
    enable: bool,
    outcomes: ResolverOutcomes,
    shared: SharedView,
) -> Option<(ResolverStep, EffectView)> {
    if !shared.capabilities.custom_resolver {
        None
    } else if !enable {
        if outcomes.deactivated is None {
            Some((ResolverStep::Deactivate, EffectView::SetCustomResolver(None)))
        } else {
            None
        }
    } else if !shared.block_when_disconnected {
        None
    } else {
        match outcomes.system_dns {
            None => Some((ResolverStep::ReadSystemDns, EffectView::QuerySystemDns)),
            Some(SystemDnsRead::Unreadable) => None,
            Some(SystemDnsRead::Read(config)) => {
                if outcomes.filtered is None {
                    Some(
                        (
                            ResolverStep::AllowResolvers,
                            allow_resolvers(state, dns_config_view(config), shared).1,
                        ),
                    )
                } else if outcomes.activated is None {
                    Some(
                        (
                            ResolverStep::Activate,
                            EffectView::SetCustomResolver(dns_config_view(config)),
                        ),
                    )
                } else if outcomes.activated == Some(true) && outcomes.redirected is None {
                    Some((ResolverStep::Redirect, EffectView::SetDns(resolver_dns())))
                } else {
                    None
                }
            },
        }
    }
}

/// The shared values after `effect` was made: recorded where the driver
/// has carried it out already, requested where not.
pub open spec fn made(shared: SharedView, carried_out: bool, effect: EffectView) -> SharedView {
    if carried_out {
        shared.record(effect)
    } else {
        shared.issue(effect)
    }
}

/// What the disconnected state does on a switch of the local resolver,
/// given what the collaborators answered. The sender is answered in this
/// turn, whatever the answers.
///
/// - Without a local resolver on the platform the switch is unavailable.
/// - Switching off succeeds where the resolver stopped forwarding.
/// - Switching on while nothing is blocked only stores the switch.
/// - Switching on while traffic is blocked fails where the system's DNS
///   configuration was not read; else the resolvers read become the
///   allowed ones and the firewall is brought in line; the switch then
///   fails where the resolver did not take up forwarding; and where the
///   system could not be pointed at the resolver, it fails and the error
///   state is entered.
///
/// Every step that the driver has carried out is recorded.
pub open spec fn switch_resolver(
    state: DisconnectedView,
    enable: bool,
    ack: AckId,
    outcomes: ResolverOutcomes,
    shared: SharedView,
) -> (ConsequenceView, SharedView) {
    let same = ConsequenceView::SameState(TunnelStateView::Disconnected(state));
    if !shared.capabilities.custom_resolver {
        (same, shared.acknowledge(ack, Err(AckError::Unavailable)))
    } else {
        let stored = SharedView { enable_custom_resolver: enable, ..shared };
        if !enable {
            (
                same,
                stored.record_if(
                    outcomes.deactivated is Some,
                    EffectView::SetCustomResolver(None),
                ).acknowledge(
                    ack,
                    if outcomes.deactivated == Some(true) {
                        Ok(())
                    } else {
                        Err(AckError::CustomResolver)
                    },
                ),
            )
        } else if !shared.block_when_disconnected {
            (same, stored.acknowledge(ack, Ok(())))
        } else {
            match outcomes.system_dns {
                None => (same, stored.acknowledge(ack, Err(AckError::SystemDns))),
                Some(SystemDnsRead::Unreadable) => (
                    same,
                    stored.record(EffectView::QuerySystemDns).acknowledge(
                        ack,
                        Err(AckError::SystemDns),
                    ),
                ),
                Some(SystemDnsRead::Read(config)) => {
                    let (replaced, policy) = allow_resolvers(
                        state,
                        dns_config_view(config),
                        stored,
                    );
                    let kept = ConsequenceView::SameState(TunnelStateView::Disconnected(replaced));
                    let filtered = made(
                        stored.record(EffectView::QuerySystemDns),
                        outcomes.filtered is Some,
                        policy,
                    );
                    let activated = filtered.record_if(
                        outcomes.activated is Some,
                        EffectView::SetCustomResolver(dns_config_view(config)),
                    );
                    if outcomes.activated != Some(true) {
                        (kept, activated.acknowledge(ack, Err(AckError::CustomResolver)))
                    } else {
                        let redirected = activated.record_if(
                            outcomes.redirected is Some,
                            EffectView::SetDns(resolver_dns()),
                        );
                        if outcomes.redirected == Some(true) {
                            (kept, redirected.acknowledge(ack, Ok(())))
                        } else {
                            error_state::enter_consequence(
                                redirected.acknowledge(ack, Err(AckError::SetDns)),
                                ErrorStateCause::SetDnsError,
                            )
                        }
                    }
                },
            }
        }
    }
}

/// Whether some address of `ips` is not in `known`.
pub open spec fn adds_new(ips: Seq<IpAddr>, known: Set<IpAddr>) -> bool {
    exists|i: int| 0 <= i < ips.len() && !known.contains(#[trigger] ips[i])
}

/// Addresses that are all known add nothing to the set.
pub proof fn lemma_nothing_new(ips: Seq<IpAddr>, known: Set<IpAddr>)
    ensures
        !adds_new(ips, known) ==> known.union(ips.to_set()) == known,
{
    if !adds_new(ips, known) {
        assert forall|a: IpAddr| ips.to_set().contains(a) implies known.contains(a) by {
            let k = choose|k: int| 0 <= k < ips.len() && ips[k] == a;
            assert(known.contains(ips[k]));
        }
        assert(known.union(ips.to_set()) =~= known);
    }
}

/// What the disconnected state does on a command.
///
/// An addition of allowed addresses allows all of them; the blocking
/// policy is requested anew, once and with the whole new set, where at
/// least one of them was not allowed before and traffic is blocked.
pub open spec fn command_step(
    state: DisconnectedView,
    command: TunnelCommand,
    shared: SharedView,
) -> (ConsequenceView, SharedView) {
    let same = ConsequenceView::SameState(TunnelStateView::Disconnected(state));
    match command {
        TunnelCommand::AllowLan(allow_lan) => {
            if shared.allow_lan != allow_lan {
                (same, set_firewall_policy(state, SharedView { allow_lan, ..shared }, true))
            } else {
                (same, shared)
            }
        },
        TunnelCommand::AllowEndpoint(endpoint, ack) => {
            let stored = SharedView { allowed_endpoint: Some(endpoint), ..shared };
            if shared.allowed_endpoint != Some(endpoint) {
                (same, set_firewall_policy(state, stored, true).acknowledge(ack, Ok(())))
            } else {
                (same, stored.acknowledge(ack, Ok(())))
            }
        },
        TunnelCommand::Dns(servers) => (
            same,
            set_dns(SharedView { dns_servers: crate::net::servers_view(servers), ..shared }),
        ),
        TunnelCommand::BlockWhenDisconnected(block_when_disconnected) => {
            if shared.block_when_disconnected != block_when_disconnected {
                let stored = SharedView { block_when_disconnected, ..shared };
                let registered = register_split_tunnel_addresses(stored, true);
                let resolved = if block_when_disconnected {
                    set_dns(registered)
                } else {
                    reset_dns(registered)
                };
                (same, set_firewall_policy(state, resolved, true))
            } else {
                (same, shared)
            }
        },
        TunnelCommand::IsOffline(is_offline) => (same, SharedView { is_offline, ..shared }),
        TunnelCommand::Connect => connecting_state::enter_consequence(shared, 0),
        TunnelCommand::Disconnect => (same, shared),
        TunnelCommand::Block(cause) => error_state::enter_consequence(reset_dns(shared), cause),
        TunnelCommand::BypassSocket(fd, ack) => {
            if shared.capabilities.tun_provider {
                (same, shared.issue(EffectView::BypassSocket { fd, ack }))
            } else {
                (same, shared.acknowledge(ack, Err(AckError::Unavailable)))
            }
        },
        TunnelCommand::SetExcludedApps(ack, paths) => {
            if shared.capabilities.split_tunnel {
                (same, shared.issue(EffectView::SetExcludedPaths { paths: paths_view(paths), ack }))
            } else {
                (same, shared.acknowledge(ack, Err(AckError::Unavailable)))
            }
        },
        TunnelCommand::SetCustomResolver(enable, ack, outcomes) => switch_resolver(
            state,
            enable,
            ack,
            outcomes,
            shared,
        ),
        TunnelCommand::HostDnsConfig(config) => {
            if shared.capabilities.custom_resolver && shared.block_when_disconnected
                && shared.enable_custom_resolver {
                let (replaced, filtered) = reset_allowed_resolvers(
                    state,
                    dns_config_view(config),
                    shared,
                );
                (
                    ConsequenceView::SameState(TunnelStateView::Disconnected(replaced)),
                    filtered.issue(EffectView::SetCustomResolver(dns_config_view(config))),
                )
            } else {
                (same, shared)
            }
        },
        TunnelCommand::AddAllowedIps(ips, ack) => {
            if !shared.capabilities.custom_resolver {
                (same, shared.acknowledge(ack, Err(AckError::Unavailable)))
            } else {
                let extended = DisconnectedView {
                    allowed_ips: state.allowed_ips.union(ips@.to_set()),
                    ..state
                };
                (
                    ConsequenceView::SameState(TunnelStateView::Disconnected(extended)),
                    if adds_new(ips@, state.allowed_ips) {
                        set_firewall_policy(extended, shared, false).acknowledge(ack, Ok(()))
                    } else {
                        shared.acknowledge(ack, Ok(()))
                    },
                )
            }
        },
    }
}

/// What the disconnected state does on a report: a failure of the
/// local resolver leads to the error state, and every other report
/// changes nothing.
pub open spec fn report_step(
    state: DisconnectedView,
    report: Report,
    shared: SharedView,
) -> (ConsequenceView, SharedView) {
    match report {
        Report::CustomResolver(false) => error_state::enter_consequence(
            shared,
            ErrorStateCause::CustomResolverError,
        ),
        _ => (ConsequenceView::SameState(TunnelStateView::Disconnected(state)), shared),
    }
}

/// The transition function of the disconnected state.
pub open spec fn step(
    state: DisconnectedView,
    event: Option<Event>,
    shared: SharedView,
) -> (ConsequenceView, SharedView) {
    match event {
        None => (ConsequenceView::Finished, reset_dns(shared)),
        Some(Event::Report(report)) => report_step(state, report, shared),
        Some(Event::Command(command)) => command_step(state, command, shared),
        Some(Event::Tunnel(_)) => (
            ConsequenceView::SameState(TunnelStateView::Disconnected(state)),
            shared,
        ),
    }
}

/// The DNS configuration that points the system at the local resolver.
pub fn redirect_to_resolver() -> (config: DnsConfig)
    ensures
        config@ == resolver_dns(),
{
    let mut servers: Vec<IpAddr> = Vec::new();
    servers.push(IpAddr::localhost());
    assert(servers@ =~= seq![IpAddr::V4(LOCALHOST_V4)]);
    DnsConfig { interface: String::from_str("lo"), servers }
}

impl DisconnectedState {
    /// The addresses that pass while traffic is blocked, in ascending
    /// order.
    pub fn allowed_ips(&self) -> (ips: Vec<IpAddr>)
        ensures
            crate::net::ascending(ips@),
            ips@.no_duplicates(),
            ips@.to_set() == self@.allowed_ips,
    {
        self.allowed_ips.to_vec()
    }

    /// The resolvers that pass while traffic is blocked, in ascending
    /// order.
    pub fn allowed_resolvers(&self) -> (ips: Vec<IpAddr>)
        ensures
            crate::net::ascending(ips@),
            ips@.no_duplicates(),
            ips@.to_set() == self@.allowed_resolvers,
    {
        self.allowed_resolvers.to_vec()
    }

    /// The blocking policy of this state under the settings of `shared`.
    pub fn firewall_policy(&self, shared: &SharedTunnelStateValues) -> (applied: FirewallPolicy)
        ensures
            applied@ == blocked_policy(self@, shared@),
    {
        FirewallPolicy::Blocked {
            allow_lan: shared.allow_lan,
            allowed_endpoint: shared.allowed_endpoint,
            allowed_ips: self.allowed_ips.duplicate(),
            allowed_resolvers: self.allowed_resolvers.duplicate(),
        }
    }

    /// Replaces the allowed resolvers by the servers of `resolver_config`
    /// and brings the firewall in line.
    fn reset_allowed_resolvers(
        &mut self,
        resolver_config: &Option<DnsConfig>,
        shared_values: &mut SharedTunnelStateValues,
    )
        ensures
            (final(self)@, final(shared_values)@) == reset_allowed_resolvers(
                old(self)@,
                dns_config_view(*resolver_config),
                old(shared_values)@,
            ),
            old(shared_values).wf() ==> final(shared_values).wf(),
    {
        match resolver_config {
            Some(config) => {
                self.allowed_resolvers = IpSet::from_list(&config.servers);
            },
            None => {
                self.allowed_resolvers = IpSet::new();
            },
        }
        self.set_firewall_policy(shared_values, false);
    }

    /// Brings the firewall in line with the settings: requests the
    /// blocking policy where traffic is to be blocked while disconnected,
    /// else a reset where `should_reset_firewall` asks for one.
    pub fn set_firewall_policy(
        &self,
        shared_values: &mut SharedTunnelStateValues,
        should_reset_firewall: bool,
    )
        ensures
            final(shared_values)@ == set_firewall_policy(
                self@,
                old(shared_values)@,
                should_reset_firewall,
            ),
            old(shared_values).wf() ==> final(shared_values).wf(),
    {
        if shared_values.block_when_disconnected {
            let applied = self.firewall_policy(shared_values);
            shared_values.issue(Effect::ApplyFirewallPolicy(applied));
        } else if should_reset_firewall {
            shared_values.issue(Effect::ResetFirewallPolicy);
        }
    }

    /// Tells the split-tunnel driver, where there is one, that no tunnel
    /// is up.
    pub fn register_split_tunnel_addresses(
        shared_values: &mut SharedTunnelStateValues,
        should_reset_firewall: bool,
    )
        ensures
            final(shared_values)@ == register_split_tunnel_addresses(
                old(shared_values)@,
                should_reset_firewall,
            ),
            old(shared_values).wf() ==> final(shared_values).wf(),
    {
        if shared_values.capabilities.split_tunnel {
            if should_reset_firewall && !shared_values.block_when_disconnected {
                shared_values.issue(Effect::ClearTunnelAddresses);
            } else {
                shared_values.issue(Effect::SetTunnelAddresses(None));
            }
        }
    }

    /// Sets the user's DNS servers, where some are chosen, on the
    /// loopback interface.
    pub fn set_dns(shared_values: &mut SharedTunnelStateValues)
        ensures
            final(shared_values)@ == set_dns(old(shared_values)@),
            old(shared_values).wf() ==> final(shared_values).wf(),
    {
        match shared_values.dns_servers() {
            Some(servers) => {
                shared_values.issue(
                    Effect::SetDns(DnsConfig { interface: String::from_str("lo0"), servers }),
                );
            },
            None => {},
        }
    }

    /// Requests a reset of DNS.
    pub fn reset_dns(shared_values: &mut SharedTunnelStateValues)
        ensures
            final(shared_values)@ == reset_dns(old(shared_values)@),
            old(shared_values).wf() ==> final(shared_values).wf(),
    {
        shared_values.issue(Effect::ResetDns);
    }

    /// Enters the disconnected state with empty sets of allowed
    /// addresses. `should_reset_firewall` tells whether rules of an
    /// earlier state or run may be in force and must go where nothing is
    /// to be blocked.
    pub fn enter(
        shared_values: &mut SharedTunnelStateValues,
        should_reset_firewall: bool,
    ) -> (entered: (TunnelStateWrapper, TunnelStateTransition))
        ensures
            (ConsequenceView::NewState(entered.0@, entered.1), final(shared_values)@)
                == enter_consequence(old(shared_values)@, should_reset_firewall),
            old(shared_values).wf() ==> final(shared_values).wf(),
    {
        let disconnected_state = DisconnectedState {
            allowed_ips: IpSet::new(),
            allowed_resolvers: IpSet::new(),
        };
        let capabilities = shared_values.capabilities;
        if capabilities.custom_resolver && shared_values.enable_custom_resolver {
            shared_values.issue(Effect::SetDns(redirect_to_resolver()));
        }
        Self::register_split_tunnel_addresses(shared_values, should_reset_firewall);
        disconnected_state.set_firewall_policy(shared_values, should_reset_firewall);
        if capabilities.connectivity_check {
            shared_values.issue(Effect::ResetConnectivityCheck);
        }
        if capabilities.tun_provider {
            shared_values.issue(Effect::CloseTun);
        }
        (TunnelStateWrapper::Disconnected(disconnected_state), TunnelStateTransition::Disconnected)
    }

    /// What a switch of the local resolver needs from a collaborator next,
    /// given the answers so far: the step and its request, or nothing
    /// where the machine can take its turn.
    pub fn resolver_inquiry(
        &self,
        enable: bool,
        outcomes: &ResolverOutcomes,
        shared_values: &SharedTunnelStateValues,
    ) -> (inquiry: Option<(ResolverStep, Effect)>)
        ensures
            match inquiry {
                Some((step, request)) => resolver_inquiry(self@, enable, *outcomes, shared_values@)
                    == Some((step, request@)),
                None => resolver_inquiry(self@, enable, *outcomes, shared_values@) is None,
            },
    {
        if !shared_values.capabilities.custom_resolver {
            None
        } else if !enable {
            if outcomes.deactivated.is_none() {
                Some((ResolverStep::Deactivate, Effect::SetCustomResolver(None)))
            } else {
                None
            }
        } else if !shared_values.block_when_disconnected {
            None
        } else {
            match &outcomes.system_dns {
                None => Some((ResolverStep::ReadSystemDns, Effect::QuerySystemDns)),
                Some(SystemDnsRead::Unreadable) => None,
                Some(SystemDnsRead::Read(config)) => {
                    if outcomes.filtered.is_none() {
                        let allowed_resolvers = match config {
                            Some(c) => IpSet::from_list(&c.servers),
                            None => IpSet::new(),
                        };
                        let policy = FirewallPolicy::Blocked {
                            allow_lan: shared_values.allow_lan,
                            allowed_endpoint: shared_values.allowed_endpoint,
                            allowed_ips: self.allowed_ips.duplicate(),
                            allowed_resolvers,
                        };
                        Some((ResolverStep::AllowResolvers, Effect::ApplyFirewallPolicy(policy)))
                    } else if outcomes.activated.is_none() {
                        let forwarded = match config {
                            Some(c) => Some(c.duplicate()),
                            None => None,
                        };
                        Some((ResolverStep::Activate, Effect::SetCustomResolver(forwarded)))
                    } else {
                        let active = match outcomes.activated {
                            Some(done) => done,
                            None => false,
                        };
                        if active && outcomes.redirected.is_none() {
                            Some((ResolverStep::Redirect, Effect::SetDns(redirect_to_resolver())))
                        } else {
                            None
                        }
                    }
                },
            }
        }
    }

    fn on_allow_lan(
        self,
        allow_lan: bool,
        shared_values: &mut SharedTunnelStateValues,
    ) -> (consequence: EventConsequence)
        ensures
            (consequence@, final(shared_values)@) == command_step(
                self@,
                TunnelCommand::AllowLan(allow_lan),
                old(shared_values)@,
            ),
            old(shared_values).wf() ==> final(shared_values).wf(),
    {
        if shared_values.allow_lan != allow_lan {
            shared_values.set_allow_lan(allow_lan);
            self.set_firewall_policy(shared_values, true);
        }
        EventConsequence::SameState(TunnelStateWrapper::Disconnected(self))
    }

    fn on_allow_endpoint(
        self,
        endpoint: crate::net::Endpoint,
        ack: AckId,
        shared_values: &mut SharedTunnelStateValues,
    ) -> (consequence: EventConsequence)
        ensures
            (consequence@, final(shared_values)@) == command_step(
                self@,
                TunnelCommand::AllowEndpoint(endpoint, ack),
                old(shared_values)@,
            ),
            old(shared_values).wf() ==> final(shared_values).wf(),
    {
        if shared_values.set_allowed_endpoint(endpoint) {
            self.set_firewall_policy(shared_values, true);
        }
        shared_values.acknowledge(ack, Ok(()));
        EventConsequence::SameState(TunnelStateWrapper::Disconnected(self))
    }

    fn on_dns(
        self,
        servers: Option<Vec<IpAddr>>,
        shared_values: &mut SharedTunnelStateValues,
    ) -> (consequence: EventConsequence)
        ensures
            (consequence@, final(shared_values)@) == command_step(
                self@,
                TunnelCommand::Dns(servers),
                old(shared_values)@,
            ),
            old(shared_values).wf() ==> final(shared_values).wf(),
    {
        shared_values.set_dns_servers(servers);
        Self::set_dns(shared_values);
        EventConsequence::SameState(TunnelStateWrapper::Disconnected(self))
    }

    fn on_block_when_disconnected(
        self,
        block_when_disconnected: bool,
        shared_values: &mut SharedTunnelStateValues,
    ) -> (consequence: EventConsequence)
        ensures
            (consequence@, final(shared_values)@) == command_step(
                self@,
                TunnelCommand::BlockWhenDisconnected(block_when_disconnected),
                old(shared_values)@,
            ),
            old(shared_values).wf() ==> final(shared_values).wf(),
    {
        if shared_values.block_when_disconnected != block_when_disconnected {
            shared_values.block_when_disconnected = block_when_disconnected;
            Self::register_split_tunnel_addresses(shared_values, true);
            if block_when_disconnected {
                Self::set_dns(shared_values);
            } else {
                Self::reset_dns(shared_values);
            }
            self.set_firewall_policy(shared_values, true);
        }
        EventConsequence::SameState(TunnelStateWrapper::Disconnected(self))
    }

    fn on_set_custom_resolver(
        self,
        enable: bool,
        ack: AckId,
        outcomes: ResolverOutcomes,
        shared_values: &mut SharedTunnelStateValues,
    ) -> (consequence: EventConsequence)
        ensures
            (consequence@, final(shared_values)@) == switch_resolver(
                self@,
                enable,
                ack,
                outcomes,
                old(shared_values)@,
            ),
            old(shared_values).wf() ==> final(shared_values).wf(),
    {
        if !shared_values.capabilities.custom_resolver {
            shared_values.acknowledge(ack, Err(AckError::Unavailable));
            return EventConsequence::SameState(TunnelStateWrapper::Disconnected(self));
        }
        shared_values.enable_custom_resolver = enable;
        if !enable {
            if outcomes.deactivated.is_some() {
                shared_values.record(&Effect::SetCustomResolver(None));
            }
            let result = match outcomes.deactivated {
                Some(true) => Ok(()),
                _ => Err(AckError::CustomResolver),
            };
            shared_values.acknowledge(ack, result);
            EventConsequence::SameState(TunnelStateWrapper::Disconnected(self))
        } else if !shared_values.block_when_disconnected {
            shared_values.acknowledge(ack, Ok(()));
            EventConsequence::SameState(TunnelStateWrapper::Disconnected(self))
        } else {
            let ResolverOutcomes { deactivated: _, system_dns, filtered, activated, redirected } =
                outcomes;
            match system_dns {
                None => {
                    shared_values.acknowledge(ack, Err(AckError::SystemDns));
                    EventConsequence::SameState(TunnelStateWrapper::Disconnected(self))
                },
                Some(SystemDnsRead::Unreadable) => {
                    shared_values.record(&Effect::QuerySystemDns);
                    shared_values.acknowledge(ack, Err(AckError::SystemDns));
                    EventConsequence::SameState(TunnelStateWrapper::Disconnected(self))
                },
                Some(SystemDnsRead::Read(config)) => self.on_system_dns_read(
                    ack,
                    config,
                    filtered,
                    activated,
                    redirected,
                    shared_values,
                ),
            }
        }
    }

    /// The rest of a switch of the local resolver to on, once the
    /// system's DNS configuration was read as `config`.
    fn on_system_dns_read(
        self,
        ack: AckId,
        config: Option<DnsConfig>,
        filtered: Option<bool>,
        activated: Option<bool>,
        redirected: Option<bool>,
        shared_values: &mut SharedTunnelStateValues,
    ) -> (consequence: EventConsequence)
        requires
            old(shared_values)@.capabilities.custom_resolver,
            old(shared_values)@.block_when_disconnected,
            old(shared_values)@.enable_custom_resolver,
        ensures
            (consequence@, final(shared_values)@) == switch_resolver(
                self@,
                true,
                ack,
                ResolverOutcomes {
                    deactivated: None,
                    system_dns: Some(SystemDnsRead::Read(config)),
                    filtered,
                    activated,
                    redirected,
                },
                old(shared_values)@,
            ),
            old(shared_values).wf() ==> final(shared_values).wf(),
    {
        let mut state = self;
        shared_values.record(&Effect::QuerySystemDns);
        match &config {
            Some(c) => {
                state.allowed_resolvers = IpSet::from_list(&c.servers);
            },
            None => {
                state.allowed_resolvers = IpSet::new();
            },
        }
        let policy = Effect::ApplyFirewallPolicy(state.firewall_policy(shared_values));
        if filtered.is_some() {
            shared_values.record(&policy);
        } else {
            shared_values.issue(policy);
        }
        let activation = Effect::SetCustomResolver(config);
        if activated.is_some() {
            shared_values.record(&activation);
        }
        match activated {
            Some(true) => {
                if redirected.is_some() {
                    shared_values.record(&Effect::SetDns(redirect_to_resolver()));
                }
                match redirected {
                    Some(true) => {
                        shared_values.acknowledge(ack, Ok(()));
                        EventConsequence::SameState(TunnelStateWrapper::Disconnected(state))
                    },
                    _ => {
                        shared_values.acknowledge(ack, Err(AckError::SetDns));
                        let (entered, transition) = ErrorState::enter(
                            shared_values,
                            ErrorStateCause::SetDnsError,
                        );
                        EventConsequence::NewState(entered, transition)
                    },
                }
            },
            _ => {
                shared_values.acknowledge(ack, Err(AckError::CustomResolver));
                EventConsequence::SameState(TunnelStateWrapper::Disconnected(state))
            },
        }
    }

    fn on_host_dns_config(
        self,
        host_config: Option<DnsConfig>,
        shared_values: &mut SharedTunnelStateValues,
    ) -> (consequence: EventConsequence)
        ensures
            (consequence@, final(shared_values)@) == command_step(
                self@,
                TunnelCommand::HostDnsConfig(host_config),
                old(shared_values)@,
            ),
            old(shared_values).wf() ==> final(shared_values).wf(),
    {
        let mut state = self;
        if shared_values.capabilities.custom_resolver && shared_values.block_when_disconnected
            && shared_values.enable_custom_resolver {
            state.reset_allowed_resolvers(&host_config, shared_values);
            shared_values.issue(Effect::SetCustomResolver(host_config));
        }
        EventConsequence::SameState(TunnelStateWrapper::Disconnected(state))
    }

    fn on_add_allowed_ips(
        self,
        allowed_ips: Vec<IpAddr>,
        ack: AckId,
        shared_values: &mut SharedTunnelStateValues,
    ) -> (consequence: EventConsequence)
        ensures
            (consequence@, final(shared_values)@) == command_step(
                self@,
                TunnelCommand::AddAllowedIps(allowed_ips, ack),
                old(shared_values)@,
            ),
            old(shared_values).wf() ==> final(shared_values).wf(),
    {
        let mut state = self;
        if !shared_values.capabilities.custom_resolver {
            shared_values.acknowledge(ack, Err(AckError::Unavailable));
            assert(state@.allowed_ips =~= self@.allowed_ips);
        } else {
            let new_addresses = state.allowed_ips.extend(&allowed_ips);
            if new_addresses {
                state.set_firewall_policy(shared_values, false);
            }
            shared_values.acknowledge(ack, Ok(()));
        }
        EventConsequence::SameState(TunnelStateWrapper::Disconnected(state))
    }

    fn on_platform_request(
        self,
        command: TunnelCommand,
        shared_values: &mut SharedTunnelStateValues,
    ) -> (consequence: EventConsequence)
        requires
            command is BypassSocket || command is SetExcludedApps,
        ensures
            (consequence@, final(shared_values)@) == command_step(
                self@,
                command,
                old(shared_values)@,
            ),
            old(shared_values).wf() ==> final(shared_values).wf(),
    {
        match command {
            TunnelCommand::BypassSocket(fd, ack) => {
                if shared_values.capabilities.tun_provider {
                    shared_values.issue(Effect::BypassSocket { fd, ack });
                } else {
                    shared_values.acknowledge(ack, Err(AckError::Unavailable));
                }
            },
            TunnelCommand::SetExcludedApps(ack, paths) => {
                if shared_values.capabilities.split_tunnel {
                    shared_values.issue(Effect::SetExcludedPaths { paths, ack });
                } else {
                    shared_values.acknowledge(ack, Err(AckError::Unavailable));
                }
            },
            _ => {},
        }
        EventConsequence::SameState(TunnelStateWrapper::Disconnected(self))
    }

    fn handle_command(
        self,
        command: TunnelCommand,
        shared_values: &mut SharedTunnelStateValues,
    ) -> (consequence: EventConsequence)
        ensures
            (consequence@, final(shared_values)@) == command_step(
                self@,
                command,
                old(shared_values)@,
            ),
            old(shared_values).wf() ==> final(shared_values).wf(),
    {
        match command {
            TunnelCommand::AllowLan(allow_lan) => self.on_allow_lan(allow_lan, shared_values),
            TunnelCommand::AllowEndpoint(endpoint, ack) => self.on_allow_endpoint(
                endpoint,
                ack,
                shared_values,
            ),
            TunnelCommand::Dns(servers) => self.on_dns(servers, shared_values),
            TunnelCommand::BlockWhenDisconnected(block_when_disconnected) => {
                self.on_block_when_disconnected(block_when_disconnected, shared_values)
            },
            TunnelCommand::IsOffline(is_offline) => {
                shared_values.is_offline = is_offline;
                EventConsequence::SameState(TunnelStateWrapper::Disconnected(self))
            },
            TunnelCommand::Connect => {
                let (state, transition) = ConnectingState::enter(shared_values, 0);
                EventConsequence::NewState(state, transition)
            },
            TunnelCommand::Disconnect => EventConsequence::SameState(
                TunnelStateWrapper::Disconnected(self),
            ),
            TunnelCommand::Block(reason) => {
                Self::reset_dns(shared_values);
                let (state, transition) = ErrorState::enter(shared_values, reason);
                EventConsequence::NewState(state, transition)
            },
            TunnelCommand::BypassSocket(_, _) | TunnelCommand::SetExcludedApps(_, _) => {
                self.on_platform_request(command, shared_values)
            },
            TunnelCommand::SetCustomResolver(enable, ack, outcomes) => self.on_set_custom_resolver(
                enable,
                ack,
                outcomes,
                shared_values,
            ),
            TunnelCommand::HostDnsConfig(host_config) => self.on_host_dns_config(
                host_config,
                shared_values,
            ),
            TunnelCommand::AddAllowedIps(allowed_ips, ack) => self.on_add_allowed_ips(
                allowed_ips,
                ack,
                shared_values,
            ),
        }
    }

    fn handle_report(
        self,
        report: Report,
        shared_values: &mut SharedTunnelStateValues,
    ) -> (consequence: EventConsequence)
        ensures
            (consequence@, final(shared_values)@) == report_step(
                self@,
                report,
                old(shared_values)@,
            ),
            old(shared_values).wf() ==> final(shared_values).wf(),
    {
        match report {
            Report::CustomResolver(false) => {
                let (state, transition) = ErrorState::enter(
                    shared_values,
                    ErrorStateCause::CustomResolverError,
                );
                EventConsequence::NewState(state, transition)
            },
            _ => EventConsequence::SameState(TunnelStateWrapper::Disconnected(self)),
        }
    }

    /// Handles one event, or the closing of the event source (`None`).
    ///
    /// A changed setting is stored and, where it bears on the policy in
    /// force, the firewall is brought in line. `Connect` leads to the
    /// connecting state, `Block` to the error state after a reset of
    /// DNS. The closing of the source resets DNS and ends the machine.
    /// Whoever waits for the completion of a command is answered in this
    /// turn, exactly once.
    pub fn handle_event(
        self,
        event: Option<Event>,
        shared_values: &mut SharedTunnelStateValues,
    ) -> (consequence: EventConsequence)
        ensures
            (consequence@, final(shared_values)@) == step(self@, event, old(shared_values)@),
            old(shared_values).wf() ==> final(shared_values).wf(),
            final(shared_values)@.answers =~= old(shared_values)@.answers.add(
                super::laws::carried(event),
            ),
    {
        proof {
            super::laws::lemma_disconnected_acknowledges(self@, event, shared_values@);
        }
        match event {
            None => {
                Self::reset_dns(shared_values);
                EventConsequence::Finished
            },
            Some(Event::Report(report)) => self.handle_report(report, shared_values),
            Some(Event::Command(command)) => self.handle_command(command, shared_values),
            Some(Event::Tunnel(_)) => EventConsequence::SameState(
                TunnelStateWrapper::Disconnected(self),
            ),
        }
    }
}

} // verus!
