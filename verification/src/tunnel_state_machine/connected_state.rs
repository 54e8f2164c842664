//! The connected state: the tunnel is up.

use vstd::prelude::*;
use crate::command::{Event, Report, TunnelCommand, TunnelEvent};
use crate::effect::{Effect, EffectView};
use crate::firewall::{FirewallPolicy, FirewallPolicyView};
use crate::net::{DnsConfig, DnsConfigView, IpAddr, TunnelMetadata, TunnelMetadataView};
use crate::shared::{SharedTunnelStateValues, SharedView};
use crate::transition::{
    ActionAfterDisconnect, ErrorStateCause, TunnelFailure, TunnelStateTransition,
};
use super::{
    apply_platform_command, apply_setting, platform_command, store_setting, ConsequenceView,
    EventConsequence, TunnelStateView, TunnelStateWrapper,
};
use super::connecting_state::{self, ConnectingState};
use super::disconnecting_state::{self, DisconnectingState};
use super::error_state::{self, ErrorState};

verus! {

/// The tunnel is up.
#[derive(Debug)]
pub struct ConnectedState {
    /// What the tunnel monitor reported about the tunnel.
    pub metadata: TunnelMetadata,
}

/// Mathematical content of a [`ConnectedState`].
pub struct ConnectedView {
    pub metadata: TunnelMetadataView,
}

impl View for ConnectedState {
    type V = ConnectedView;

    open spec fn view(&self) -> ConnectedView {
        ConnectedView { metadata: self.metadata@ }
    }
}

/// The resolvers in use while connected: the user's, where some are
/// chosen, else those of the tunnel.
pub open spec fn resolvers(state: ConnectedView, shared: SharedView) -> Seq<IpAddr> {
    match shared.dns_servers {
        Some(servers) => servers,
        None => state.metadata.resolvers,
    }
}

/// The policy of the connected state: everything goes through the tunnel
/// to its peer, besides the allowed exceptions.
pub open spec fn policy(state: ConnectedView, shared: SharedView) -> FirewallPolicyView {
    FirewallPolicyView::Connected {
        peer_endpoint: state.metadata.endpoint,
        tunnel_interface: state.metadata.interface,
        allow_lan: shared.allow_lan,
        allowed_endpoint: shared.allowed_endpoint,
        dns_servers: resolvers(state, shared),
    }
}

/// The DNS configuration of the connected state: the resolvers in use, on
/// the tunnel's interface.
pub open spec fn dns_config(state: ConnectedView, shared: SharedView) -> DnsConfigView {
    DnsConfigView { interface: state.metadata.interface, servers: resolvers(state, shared) }
}

/// Entering the connected state with the tunnel described by `metadata`:
/// the policy is requested, then the DNS configuration, then, where
/// applications can be excluded, the registration of the tunnel's addresses.
pub open spec fn enter(
    shared: SharedView,
    metadata: TunnelMetadataView,
) -> (ConnectedView, SharedView) {
    let state = ConnectedView { metadata };
    let configured = shared.issue(EffectView::ApplyFirewallPolicy(policy(state, shared))).issue(
        EffectView::SetDns(dns_config(state, shared)),
    );
    (
        state,
        if shared.capabilities.split_tunnel {
            configured.issue(EffectView::SetTunnelAddresses(Some(metadata)))
        } else {
            configured
        },
    )
}

/// Entering the connected state, as a consequence of a dispatch.
pub open spec fn enter_consequence(
    shared: SharedView,
    metadata: TunnelMetadataView,
) -> (ConsequenceView, SharedView) {
    let (state, after) = enter(shared, metadata);
    (
        ConsequenceView::NewState(
            TunnelStateView::Connected(state),
            TunnelStateTransition::Connected(metadata.endpoint),
        ),
        after,
    )
}

/// The policy requested anew under the settings of `shared`.
pub open spec fn reapply(state: ConnectedView, shared: SharedView) -> SharedView {
    shared.issue(EffectView::ApplyFirewallPolicy(policy(state, shared)))
}

/// Leaving for the error state on a failure while connected: DNS is
/// reset first, then the tunnel is stopped.
pub open spec fn fail(shared: SharedView, cause: ErrorStateCause) -> (ConsequenceView, SharedView) {
    error_state::enter_consequence(
        shared.issue(EffectView::ResetDns).issue(EffectView::StopTunnel),
        cause,
    )
}

/// The transition function of the connected state.
pub open spec fn step(
    state: ConnectedView,
    event: Option<Event>,
    shared: SharedView,
) -> (ConsequenceView, SharedView) {
    let same = ConsequenceView::SameState(TunnelStateView::Connected(state));
    match event {
        None => (
            ConsequenceView::Finished,
            shared.issue(EffectView::StopTunnel).issue(EffectView::ResetDns),
        ),
        Some(Event::Command(command)) => match command {
            TunnelCommand::AllowLan(allow_lan) => {
                if shared.allow_lan != allow_lan {
                    (same, reapply(state, store_setting(command, shared)))
                } else {
                    (same, shared)
                }
            },
            TunnelCommand::AllowEndpoint(endpoint, ack) => {
                let stored = SharedView { allowed_endpoint: Some(endpoint), ..shared };
                if shared.allowed_endpoint != Some(endpoint) {
                    (same, reapply(state, stored).acknowledge(ack, Ok(())))
                } else {
                    (same, stored.acknowledge(ack, Ok(())))
                }
            },
            TunnelCommand::Dns(servers) => {
                let stored = store_setting(command, shared);
                if shared.dns_servers != stored.dns_servers {
                    (
                        same,
                        reapply(state, stored).issue(EffectView::SetDns(dns_config(state, stored))),
                    )
                } else {
                    (same, stored)
                }
            },
            TunnelCommand::BlockWhenDisconnected(_) | TunnelCommand::IsOffline(_) => (
                same,
                store_setting(command, shared),
            ),
            TunnelCommand::Connect => (same, shared),
            TunnelCommand::Disconnect => disconnecting_state::enter_consequence(
                shared.issue(EffectView::ResetDns),
                ActionAfterDisconnect::Nothing,
            ),
            TunnelCommand::Block(cause) => fail(shared, cause),
            _ => (same, platform_command(command, shared)),
        },
        Some(Event::Tunnel(tunnel_event)) => match tunnel_event {
            TunnelEvent::Down(failure) => {
                if failure is AuthFailed {
                    error_state::enter_consequence(
                        shared.issue(EffectView::ResetDns),
                        ErrorStateCause::AuthFailed,
                    )
                } else {
                    connecting_state::enter_consequence(shared.issue(EffectView::ResetDns), 0)
                }
            },
            _ => (same, shared),
        },
        Some(Event::Report(report)) => match report {
            Report::Firewall(false) => fail(shared, ErrorStateCause::SetFirewallPolicyError),
            Report::Dns(false) => fail(shared, ErrorStateCause::SetDnsError),
            Report::SplitTunnel(false) => fail(shared, ErrorStateCause::SplitTunnelError),
            _ => (same, shared),
        },
    }
}

impl ConnectedState {
    fn resolvers(&self, shared: &SharedTunnelStateValues) -> (servers: Vec<IpAddr>)
        ensures
            servers@ == resolvers(self@, shared@),
    {
        match &shared.dns_servers {
            Some(servers) => servers.clone(),
            None => self.metadata.resolvers.clone(),
        }
    }

    /// The policy that this state keeps in force under the settings of
    /// `shared`.
    pub fn firewall_policy(&self, shared: &SharedTunnelStateValues) -> (applied: FirewallPolicy)
        ensures
            applied@ == policy(self@, shared@),
    {
        FirewallPolicy::Connected {
            peer_endpoint: self.metadata.endpoint,
            tunnel_interface: self.metadata.interface.clone(),
            allow_lan: shared.allow_lan,
            allowed_endpoint: shared.allowed_endpoint,
            dns_servers: self.resolvers(shared),
        }
    }

    /// The DNS configuration that this state keeps in force under the
    /// settings of `shared`.
    pub fn dns_config(&self, shared: &SharedTunnelStateValues) -> (config: DnsConfig)
        ensures
            config@ == dns_config(self@, shared@),
    {
        DnsConfig { interface: self.metadata.interface.clone(), servers: self.resolvers(shared) }
    }

    /// Enters the connected state: requests the policy of the tunnel, its
    /// DNS configuration and, where applications can be excluded, the
    /// registration of its addresses.
    pub fn enter(
        shared: &mut SharedTunnelStateValues,
        metadata: TunnelMetadata,
    ) -> (entered: (TunnelStateWrapper, TunnelStateTransition))
        ensures
            (ConsequenceView::NewState(entered.0@, entered.1), final(shared)@) == enter_consequence(
                old(shared)@,
                metadata@,
            ),
            old(shared).wf() ==> final(shared).wf(),
    {
        let endpoint = metadata.endpoint;
        let state = ConnectedState { metadata };
        let applied = state.firewall_policy(shared);
        let config = state.dns_config(shared);
        shared.issue(Effect::ApplyFirewallPolicy(applied));
        shared.issue(Effect::SetDns(config));
        if shared.capabilities.split_tunnel {
            shared.issue(Effect::SetTunnelAddresses(Some(state.metadata.duplicate())));
        }
        (TunnelStateWrapper::Connected(state), TunnelStateTransition::Connected(endpoint))
    }

    fn reapply(&self, shared: &mut SharedTunnelStateValues)
        ensures
            final(shared)@ == reapply(self@, old(shared)@),
            old(shared).wf() ==> final(shared).wf(),
    {
        let applied = self.firewall_policy(shared);
        shared.issue(Effect::ApplyFirewallPolicy(applied));
    }

    fn fail(
        shared: &mut SharedTunnelStateValues,
        cause: ErrorStateCause,
    ) -> (consequence: EventConsequence)
        ensures
            (consequence@, final(shared)@) == fail(old(shared)@, cause),
            old(shared).wf() ==> final(shared).wf(),
    {
        shared.issue(Effect::ResetDns);
        shared.issue(Effect::StopTunnel);
        let (state, transition) = ErrorState::enter(shared, cause);
        EventConsequence::NewState(state, transition)
    }

    /// Handles one event, or the closing of the event source (`None`).
    ///
    /// A change of the allowed exceptions or of the DNS servers requests
    /// the policy anew. Whatever leaves the state resets DNS first.
    pub fn handle_event(
        self,
        event: Option<Event>,
        shared: &mut SharedTunnelStateValues,
    ) -> (consequence: EventConsequence)
        ensures
            (consequence@, final(shared)@) == step(self@, event, old(shared)@),
            old(shared).wf() ==> final(shared).wf(),
    {
        match event {
            None => {
                shared.issue(Effect::StopTunnel);
                shared.issue(Effect::ResetDns);
                EventConsequence::Finished
            },
            Some(Event::Command(command)) => match command {
                TunnelCommand::AllowLan(allow_lan) => {
                    if shared.allow_lan != allow_lan {
                        apply_setting(TunnelCommand::AllowLan(allow_lan), shared);
                        self.reapply(shared);
                    }
                    EventConsequence::SameState(TunnelStateWrapper::Connected(self))
                },
                TunnelCommand::AllowEndpoint(endpoint, ack) => {
                    if shared.set_allowed_endpoint(endpoint) {
                        self.reapply(shared);
                    }
                    shared.acknowledge(ack, Ok(()));
                    EventConsequence::SameState(TunnelStateWrapper::Connected(self))
                },
                TunnelCommand::Dns(servers) => {
                    if shared.set_dns_servers(servers) {
                        self.reapply(shared);
                        let config = self.dns_config(shared);
                        shared.issue(Effect::SetDns(config));
                    }
                    EventConsequence::SameState(TunnelStateWrapper::Connected(self))
                },
                TunnelCommand::BlockWhenDisconnected(_) | TunnelCommand::IsOffline(_) => {
                    apply_setting(command, shared);
                    EventConsequence::SameState(TunnelStateWrapper::Connected(self))
                },
                TunnelCommand::Connect => EventConsequence::SameState(
                    TunnelStateWrapper::Connected(self),
                ),
                TunnelCommand::Disconnect => {
                    shared.issue(Effect::ResetDns);
                    let (state, transition) = DisconnectingState::enter(
                        shared,
                        ActionAfterDisconnect::Nothing,
                    );
                    EventConsequence::NewState(state, transition)
                },
                TunnelCommand::Block(cause) => Self::fail(shared, cause),
                _ => {
                    apply_platform_command(command, shared);
                    EventConsequence::SameState(TunnelStateWrapper::Connected(self))
                },
            },
            Some(Event::Tunnel(tunnel_event)) => match tunnel_event {
                TunnelEvent::Down(failure) => {
                    shared.issue(Effect::ResetDns);
                    let (state, transition) = match failure {
                        TunnelFailure::AuthFailed => ErrorState::enter(
                            shared,
                            ErrorStateCause::AuthFailed,
                        ),
                        _ => ConnectingState::enter(shared, 0),
                    };
                    EventConsequence::NewState(state, transition)
                },
                _ => EventConsequence::SameState(TunnelStateWrapper::Connected(self)),
            },
            Some(Event::Report(report)) => match report {
                Report::Firewall(false) => Self::fail(
                    shared,
                    ErrorStateCause::SetFirewallPolicyError,
                ),
                Report::Dns(false) => Self::fail(shared, ErrorStateCause::SetDnsError),
                Report::SplitTunnel(false) => Self::fail(shared, ErrorStateCause::SplitTunnelError),
                _ => EventConsequence::SameState(TunnelStateWrapper::Connected(self)),
            },
        }
    }
}

} // verus!
