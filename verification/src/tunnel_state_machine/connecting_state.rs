//! The connecting state: a tunnel is being set up.

use vstd::prelude::*;
use crate::command::{Event, Report, TunnelCommand, TunnelEvent};
use crate::effect::{Effect, EffectView};
use crate::firewall::{FirewallPolicy, FirewallPolicyView};
use crate::net::Endpoint;
use crate::shared::{SharedTunnelStateValues, SharedView};
use crate::transition::{
    ActionAfterDisconnect, ErrorStateCause, TunnelFailure, TunnelStateTransition,
};
use super::{
    apply_platform_command, apply_setting, platform_command, store_setting, ConsequenceView,
    EventConsequence, TunnelStateView, TunnelStateWrapper,
};
use super::connected_state::{self, ConnectedState};
use super::disconnecting_state::{self, DisconnectingState};
use super::error_state::{self, ErrorState};

verus! {

/// The highest attempt number: a tunnel that fails to come up is started
/// again until the attempt with this number has failed too.
pub const MAX_RETRY_ATTEMPT: u32 = 4;

/// A tunnel is being set up.
#[derive(Clone, Copy, Debug, PartialEq, Eq, Structural)]
pub struct ConnectingState {
    /// The number of this attempt, from zero.
    pub retry_attempt: u32,
    /// The peer of the tunnel, once the tunnel monitor has chosen it.
    pub peer_endpoint: Option<Endpoint>,
}

/// The policy of the connecting state: the peer, once known, and the
/// allowed exceptions pass.
pub open spec fn policy(state: ConnectingState, shared: SharedView) -> FirewallPolicyView {
    FirewallPolicyView::Connecting {
        peer_endpoint: state.peer_endpoint,
        allow_lan: shared.allow_lan,
        allowed_endpoint: shared.allowed_endpoint,
    }
}

/// Entering the connecting state for the attempt `retry_attempt`: the
/// policy is requested, then the tunnel.
pub open spec fn enter(shared: SharedView, retry_attempt: u32) -> (ConnectingState, SharedView) {
    let state = ConnectingState { retry_attempt, peer_endpoint: None };
    (
        state,
        shared.issue(EffectView::ApplyFirewallPolicy(policy(state, shared))).issue(
            EffectView::StartTunnel { attempt: retry_attempt },
        ),
    )
}

/// Entering the connecting state, as a consequence of a dispatch.
pub open spec fn enter_consequence(
    shared: SharedView,
    retry_attempt: u32,
) -> (ConsequenceView, SharedView) {
    let (state, after) = enter(shared, retry_attempt);
    (
        ConsequenceView::NewState(
            TunnelStateView::Connecting(state),
            TunnelStateTransition::Connecting,
        ),
        after,
    )
}

/// The policy requested anew under the settings of `shared`.
pub open spec fn reapply(state: ConnectingState, shared: SharedView) -> SharedView {
    shared.issue(EffectView::ApplyFirewallPolicy(policy(state, shared)))
}

/// What the connecting state does on a tunnel that went down for
/// `failure`: a failed authentication ends in the error state at once,
/// anything else starts the next attempt, until the last attempt has
/// failed.
pub open spec fn tunnel_down(
    state: ConnectingState,
    failure: TunnelFailure,
    shared: SharedView,
) -> (ConsequenceView, SharedView) {
    if failure is AuthFailed {
        error_state::enter_consequence(shared, ErrorStateCause::AuthFailed)
    } else if state.retry_attempt < MAX_RETRY_ATTEMPT {
        enter_consequence(shared, (state.retry_attempt + 1) as u32)
    } else {
        error_state::enter_consequence(shared, ErrorStateCause::TunnelFailure(failure))
    }
}

/// The transition function of the connecting state.
pub open spec fn step(
    state: ConnectingState,
    event: Option<Event>,
    shared: SharedView,
) -> (ConsequenceView, SharedView) {
    let same = ConsequenceView::SameState(TunnelStateView::Connecting(state));
    match event {
        None => (
            ConsequenceView::Finished,
            shared.issue(EffectView::StopTunnel).issue(EffectView::ResetDns),
        ),
        Some(Event::Command(command)) => match command {
            TunnelCommand::AllowLan(allow_lan) => {
                if shared.allow_lan != allow_lan {
                    (same, reapply(state, store_setting(command, shared)))
                } else {
                    (same, shared)
                }
            },
            TunnelCommand::AllowEndpoint(endpoint, ack) => {
                let stored = SharedView { allowed_endpoint: Some(endpoint), ..shared };
                if shared.allowed_endpoint != Some(endpoint) {
                    (same, reapply(state, stored).acknowledge(ack, Ok(())))
                } else {
                    (same, stored.acknowledge(ack, Ok(())))
                }
            },
            TunnelCommand::Dns(_)
            | TunnelCommand::BlockWhenDisconnected(_)
            | TunnelCommand::IsOffline(_) => (same, store_setting(command, shared)),
            TunnelCommand::Connect => (same, shared),
            TunnelCommand::Disconnect => disconnecting_state::enter_consequence(
                shared,
                ActionAfterDisconnect::Nothing,
            ),
            TunnelCommand::Block(cause) => error_state::enter_consequence(
                shared.issue(EffectView::ResetDns).issue(EffectView::StopTunnel),
                cause,
            ),
            _ => (same, platform_command(command, shared)),
        },
        Some(Event::Tunnel(tunnel_event)) => match tunnel_event {
            TunnelEvent::Selected(endpoint) => {
                if state.peer_endpoint != Some(endpoint) {
                    let chosen = ConnectingState { peer_endpoint: Some(endpoint), ..state };
                    (
                        ConsequenceView::SameState(TunnelStateView::Connecting(chosen)),
                        reapply(chosen, shared),
                    )
                } else {
                    (same, shared)
                }
            },
            TunnelEvent::Up(metadata) => connected_state::enter_consequence(shared, metadata@),
            TunnelEvent::Down(failure) => tunnel_down(state, failure, shared),
        },
        Some(Event::Report(report)) => match report {
            Report::Firewall(false) => error_state::enter_consequence(
                shared.issue(EffectView::StopTunnel),
                ErrorStateCause::SetFirewallPolicyError,
            ),
            Report::Dns(false) => error_state::enter_consequence(
                shared.issue(EffectView::StopTunnel),
                ErrorStateCause::SetDnsError,
            ),
            _ => (same, shared),
        },
    }
}

impl ConnectingState {
    /// The policy that this state keeps in force under the settings of
    /// `shared`.
    pub fn firewall_policy(&self, shared: &SharedTunnelStateValues) -> (applied: FirewallPolicy)
        ensures
            applied@ == policy(*self, shared@),
    {
        FirewallPolicy::Connecting {
            peer_endpoint: self.peer_endpoint,
            allow_lan: shared.allow_lan,
            allowed_endpoint: shared.allowed_endpoint,
        }
    }

    /// Enters the connecting state for the attempt `retry_attempt`:
    /// requests the policy, then the tunnel.
    pub fn enter(
        shared: &mut SharedTunnelStateValues,
        retry_attempt: u32,
    ) -> (entered: (TunnelStateWrapper, TunnelStateTransition))
        ensures
            (ConsequenceView::NewState(entered.0@, entered.1), final(shared)@) == enter_consequence(
                old(shared)@,
                retry_attempt,
            ),
            old(shared).wf() ==> final(shared).wf(),
    {
        let state = ConnectingState { retry_attempt, peer_endpoint: None };
        let applied = state.firewall_policy(shared);
        shared.issue(Effect::ApplyFirewallPolicy(applied));
        shared.issue(Effect::StartTunnel { attempt: retry_attempt });
        (TunnelStateWrapper::Connecting(state), TunnelStateTransition::Connecting)
    }

    fn reapply(&self, shared: &mut SharedTunnelStateValues)
        ensures
            final(shared)@ == reapply(*self, old(shared)@),
            old(shared).wf() ==> final(shared).wf(),
    {
        let applied = self.firewall_policy(shared);
        shared.issue(Effect::ApplyFirewallPolicy(applied));
    }

    fn tunnel_down(
        self,
        failure: TunnelFailure,
        shared: &mut SharedTunnelStateValues,
    ) -> (consequence: EventConsequence)
        ensures
            (consequence@, final(shared)@) == tunnel_down(self, failure, old(shared)@),
            old(shared).wf() ==> final(shared).wf(),
    {
        match failure {
            TunnelFailure::AuthFailed => {
                let (state, transition) = ErrorState::enter(shared, ErrorStateCause::AuthFailed);
                EventConsequence::NewState(state, transition)
            },
            _ => {
                if self.retry_attempt < MAX_RETRY_ATTEMPT {
                    let (state, transition) = ConnectingState::enter(
                        shared,
                        self.retry_attempt + 1,
                    );
                    EventConsequence::NewState(state, transition)
                } else {
                    let (state, transition) = ErrorState::enter(
                        shared,
                        ErrorStateCause::TunnelFailure(failure),
                    );
                    EventConsequence::NewState(state, transition)
                }
            },
        }
    }

    /// Handles one event, or the closing of the event source (`None`).
    ///
    /// A change of the allowed exceptions or of the peer requests the
    /// policy anew. A tunnel that comes up leads to the connected state, one
    /// that goes down to the next attempt or to the error state, and so
    /// does a request that the firewall or the DNS monitor rejected.
    pub fn handle_event(
        self,
        event: Option<Event>,
        shared: &mut SharedTunnelStateValues,
    ) -> (consequence: EventConsequence)
        ensures
            (consequence@, final(shared)@) == step(self, event, old(shared)@),
            old(shared).wf() ==> final(shared).wf(),
    {
        match event {
            None => {
                shared.issue(Effect::StopTunnel);
                shared.issue(Effect::ResetDns);
                EventConsequence::Finished
            },
            Some(Event::Command(command)) => match command {
                TunnelCommand::AllowLan(allow_lan) => {
                    if shared.allow_lan != allow_lan {
                        apply_setting(TunnelCommand::AllowLan(allow_lan), shared);
                        self.reapply(shared);
                    }
                    EventConsequence::SameState(TunnelStateWrapper::Connecting(self))
                },
                TunnelCommand::AllowEndpoint(endpoint, ack) => {
                    if shared.set_allowed_endpoint(endpoint) {
                        self.reapply(shared);
                    }
                    shared.acknowledge(ack, Ok(()));
                    EventConsequence::SameState(TunnelStateWrapper::Connecting(self))
                },
                TunnelCommand::Dns(_)
                | TunnelCommand::BlockWhenDisconnected(_)
                | TunnelCommand::IsOffline(_) => {
                    apply_setting(command, shared);
                    EventConsequence::SameState(TunnelStateWrapper::Connecting(self))
                },
                TunnelCommand::Connect => EventConsequence::SameState(
                    TunnelStateWrapper::Connecting(self),
                ),
                TunnelCommand::Disconnect => {
                    let (state, transition) = DisconnectingState::enter(
                        shared,
                        ActionAfterDisconnect::Nothing,
                    );
                    EventConsequence::NewState(state, transition)
                },
                TunnelCommand::Block(cause) => {
                    shared.issue(Effect::ResetDns);
                    shared.issue(Effect::StopTunnel);
                    let (state, transition) = ErrorState::enter(shared, cause);
                    EventConsequence::NewState(state, transition)
                },
                _ => {
                    apply_platform_command(command, shared);
                    EventConsequence::SameState(TunnelStateWrapper::Connecting(self))
                },
            },
            Some(Event::Tunnel(tunnel_event)) => match tunnel_event {
                TunnelEvent::Selected(endpoint) => {
                    let known = match self.peer_endpoint {
                        Some(current) => current == endpoint,
                        None => false,
                    };
                    if !known {
                        let chosen = ConnectingState { peer_endpoint: Some(endpoint), ..self };
                        chosen.reapply(shared);
                        EventConsequence::SameState(TunnelStateWrapper::Connecting(chosen))
                    } else {
                        EventConsequence::SameState(TunnelStateWrapper::Connecting(self))
                    }
                },
                TunnelEvent::Up(metadata) => {
                    let (state, transition) = ConnectedState::enter(shared, metadata);
                    EventConsequence::NewState(state, transition)
                },
                TunnelEvent::Down(failure) => self.tunnel_down(failure, shared),
            },
            Some(Event::Report(report)) => match report {
                Report::Firewall(false) => {
                    shared.issue(Effect::StopTunnel);
                    let (state, transition) = ErrorState::enter(
                        shared,
                        ErrorStateCause::SetFirewallPolicyError,
                    );
                    EventConsequence::NewState(state, transition)
                },
                Report::Dns(false) => {
                    shared.issue(Effect::StopTunnel);
                    let (state, transition) = ErrorState::enter(
                        shared,
                        ErrorStateCause::SetDnsError,
                    );
                    EventConsequence::NewState(state, transition)
                },
                _ => EventConsequence::SameState(TunnelStateWrapper::Connecting(self)),
            },
        }
    }
}

} // verus!
