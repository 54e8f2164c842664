//! The disconnecting state: the tunnel is being torn down.

use vstd::prelude::*;
use crate::command::{Event, Report, TunnelCommand, TunnelEvent};
use crate::effect::{Effect, EffectView};
use crate::shared::{SharedTunnelStateValues, SharedView};
use crate::transition::{ActionAfterDisconnect, ErrorStateCause, TunnelStateTransition};
use super::{
    apply_platform_command, apply_setting, platform_command, store_setting, ConsequenceView,
    EventConsequence, TunnelStateView, TunnelStateWrapper,
};
use super::connecting_state::{self, ConnectingState};
use super::disconnected_state::{self, DisconnectedState};
use super::error_state::{self, ErrorState};

verus! {

/// The tunnel is being torn down; the state waits for it to stop.
#[derive(Clone, Copy, Debug, PartialEq, Eq, Structural)]
pub struct DisconnectingState {
    /// What follows once the tunnel has stopped.
    pub after_disconnect: ActionAfterDisconnect,
}

/// Entering the disconnecting state: the tunnel monitor is asked to stop
/// the tunnel. The firewall keeps the policy of the tunnel.
pub open spec fn enter(
    shared: SharedView,
    after_disconnect: ActionAfterDisconnect,
) -> (DisconnectingState, SharedView) {
    (DisconnectingState { after_disconnect }, shared.issue(EffectView::StopTunnel))
}

/// Entering the disconnecting state, as a consequence of a dispatch.
pub open spec fn enter_consequence(
    shared: SharedView,
    after_disconnect: ActionAfterDisconnect,
) -> (ConsequenceView, SharedView) {
    let (state, after) = enter(shared, after_disconnect);
    (
        ConsequenceView::NewState(
            TunnelStateView::Disconnecting(state),
            TunnelStateTransition::Disconnecting(after_disconnect),
        ),
        after,
    )
}

/// What follows the stop of the tunnel.
pub open spec fn tunnel_stopped(
    state: DisconnectingState,
    shared: SharedView,
) -> (ConsequenceView, SharedView) {
    match state.after_disconnect {
        ActionAfterDisconnect::Nothing => disconnected_state::enter_consequence(shared, true),
        ActionAfterDisconnect::Block(cause) => error_state::enter_consequence(shared, cause),
        ActionAfterDisconnect::Reconnect => connecting_state::enter_consequence(shared, 0),
    }
}

/// The transition function of the disconnecting state.
pub open spec fn step(
    state: DisconnectingState,
    event: Option<Event>,
    shared: SharedView,
) -> (ConsequenceView, SharedView) {
    let same = ConsequenceView::SameState(TunnelStateView::Disconnecting(state));
    match event {
        None => (ConsequenceView::Finished, shared.issue(EffectView::ResetDns)),
        Some(Event::Command(command)) => match command {
            TunnelCommand::AllowLan(_)
            | TunnelCommand::AllowEndpoint(_, _)
            | TunnelCommand::Dns(_)
            | TunnelCommand::BlockWhenDisconnected(_)
            | TunnelCommand::IsOffline(_) => (same, store_setting(command, shared)),
            TunnelCommand::Connect => (
                ConsequenceView::SameState(
                    TunnelStateView::Disconnecting(
                        DisconnectingState { after_disconnect: ActionAfterDisconnect::Reconnect },
                    ),
                ),
                shared,
            ),
            TunnelCommand::Disconnect => (
                ConsequenceView::SameState(
                    TunnelStateView::Disconnecting(
                        DisconnectingState { after_disconnect: ActionAfterDisconnect::Nothing },
                    ),
                ),
                shared,
            ),
            TunnelCommand::Block(cause) => (
                ConsequenceView::SameState(
                    TunnelStateView::Disconnecting(
                        DisconnectingState {
                            after_disconnect: ActionAfterDisconnect::Block(cause),
                        },
                    ),
                ),
                shared,
            ),
            _ => (same, platform_command(command, shared)),
        },
        Some(Event::Tunnel(TunnelEvent::Down(_))) => tunnel_stopped(state, shared),
        Some(Event::Report(Report::Firewall(false))) => (
            ConsequenceView::SameState(
                TunnelStateView::Disconnecting(
                    DisconnectingState {
                        after_disconnect: ActionAfterDisconnect::Block(
                            ErrorStateCause::SetFirewallPolicyError,
                        ),
                    },
                ),
            ),
            shared,
        ),
        Some(Event::Report(Report::Dns(false))) => (
            ConsequenceView::SameState(
                TunnelStateView::Disconnecting(
                    DisconnectingState {
                        after_disconnect: ActionAfterDisconnect::Block(
                            ErrorStateCause::SetDnsError,
                        ),
                    },
                ),
            ),
            shared,
        ),
        Some(_) => (same, shared),
    }
}

impl DisconnectingState {
    /// Enters the disconnecting state: asks the tunnel monitor to stop the
    /// tunnel.
    pub fn enter(
        shared: &mut SharedTunnelStateValues,
        after_disconnect: ActionAfterDisconnect,
    ) -> (entered: (TunnelStateWrapper, TunnelStateTransition))
        ensures
            (ConsequenceView::NewState(entered.0@, entered.1), final(shared)@) == enter_consequence(
                old(shared)@,
                after_disconnect,
            ),
            old(shared).wf() ==> final(shared).wf(),
    {
        shared.issue(Effect::StopTunnel);
        (
            TunnelStateWrapper::Disconnecting(DisconnectingState { after_disconnect }),
            TunnelStateTransition::Disconnecting(after_disconnect),
        )
    }

    fn tunnel_stopped(self, shared: &mut SharedTunnelStateValues) -> (consequence: EventConsequence)
        ensures
            (consequence@, final(shared)@) == tunnel_stopped(self, old(shared)@),
            old(shared).wf() ==> final(shared).wf(),
    {
        let (state, transition) = match self.after_disconnect {
            ActionAfterDisconnect::Nothing => DisconnectedState::enter(shared, true),
            ActionAfterDisconnect::Block(cause) => ErrorState::enter(shared, cause),
            ActionAfterDisconnect::Reconnect => ConnectingState::enter(shared, 0),
        };
        EventConsequence::NewState(state, transition)
    }

    /// Handles one event, or the closing of the event source (`None`).
    ///
    /// Settings are stored. `Connect`, `Disconnect` and `Block` choose what
    /// follows the stop of the tunnel, a request that the firewall or the
    /// DNS monitor rejected makes it the error state, and the report that
    /// the tunnel is down makes it happen.
    pub fn handle_event(
        self,
        event: Option<Event>,
        shared: &mut SharedTunnelStateValues,
    ) -> (consequence: EventConsequence)
        ensures
            (consequence@, final(shared)@) == step(self, event, old(shared)@),
            old(shared).wf() ==> final(shared).wf(),
    {
        match event {
            None => {
                shared.issue(Effect::ResetDns);
                EventConsequence::Finished
            },
            Some(Event::Command(command)) => match command {
                TunnelCommand::AllowLan(_)
                | TunnelCommand::AllowEndpoint(_, _)
                | TunnelCommand::Dns(_)
                | TunnelCommand::BlockWhenDisconnected(_)
                | TunnelCommand::IsOffline(_) => {
                    apply_setting(command, shared);
                    EventConsequence::SameState(TunnelStateWrapper::Disconnecting(self))
                },
                TunnelCommand::Connect => EventConsequence::SameState(
                    TunnelStateWrapper::Disconnecting(
                        DisconnectingState { after_disconnect: ActionAfterDisconnect::Reconnect },
                    ),
                ),
                TunnelCommand::Disconnect => EventConsequence::SameState(
                    TunnelStateWrapper::Disconnecting(
                        DisconnectingState { after_disconnect: ActionAfterDisconnect::Nothing },
                    ),
                ),
                TunnelCommand::Block(cause) => EventConsequence::SameState(
                    TunnelStateWrapper::Disconnecting(
                        DisconnectingState {
                            after_disconnect: ActionAfterDisconnect::Block(cause),
                        },
                    ),
                ),
                _ => {
                    apply_platform_command(command, shared);
                    EventConsequence::SameState(TunnelStateWrapper::Disconnecting(self))
                },
            },
            Some(Event::Tunnel(TunnelEvent::Down(_))) => self.tunnel_stopped(shared),
            Some(Event::Report(Report::Firewall(false))) => EventConsequence::SameState(
                TunnelStateWrapper::Disconnecting(
                    DisconnectingState {
                        after_disconnect: ActionAfterDisconnect::Block(
                            ErrorStateCause::SetFirewallPolicyError,
                        ),
                    },
                ),
            ),
            Some(Event::Report(Report::Dns(false))) => EventConsequence::SameState(
                TunnelStateWrapper::Disconnecting(
                    DisconnectingState {
                        after_disconnect: ActionAfterDisconnect::Block(
                            ErrorStateCause::SetDnsError,
                        ),
                    },
                ),
            ),
            Some(_) => EventConsequence::SameState(TunnelStateWrapper::Disconnecting(self)),
        }
    }
}

} // verus!
