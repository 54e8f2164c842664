//! The error state: traffic is blocked until the user connects or
//! disconnects.

use vstd::prelude::*;
use crate::command::{Event, TunnelCommand};
use crate::effect::{Effect, EffectView};
use crate::firewall::{FirewallPolicy, FirewallPolicyView};
use crate::net::{Endpoint, IpSet};
use crate::shared::{SharedTunnelStateValues, SharedView};
use crate::transition::{ErrorStateCause, TunnelStateTransition};
use super::{
    apply_platform_command, apply_setting, platform_command, store_setting, ConsequenceView,
    EventConsequence, TunnelStateView, TunnelStateWrapper,
};
use super::connecting_state::{self, ConnectingState};
use super::disconnected_state::{self, DisconnectedState};

verus! {

/// Traffic is blocked because something failed, or on request.
///
/// The state remembers the exceptions of the policy it applied on entry:
/// settings that arrive later are stored, and loosen nothing while the
/// state lasts.
#[derive(Clone, Copy, Debug, PartialEq, Eq, Structural)]
pub struct ErrorState {
    /// Why the state was entered.
    pub cause: ErrorStateCause,
    /// Whether the policy in force lets local-network traffic pass.
    pub allow_lan: bool,
    /// The endpoint that the policy in force exempts.
    pub allowed_endpoint: Option<Endpoint>,
}

/// The blocking policy of the error state `state`.
pub open spec fn policy(state: ErrorState) -> FirewallPolicyView {
    FirewallPolicyView::Blocked {
        allow_lan: state.allow_lan,
        allowed_endpoint: state.allowed_endpoint,
        allowed_ips: Set::empty(),
        allowed_resolvers: Set::empty(),
    }
}

/// Entering the error state for `cause`: the blocking policy with the
/// current exceptions is requested.
pub open spec fn enter(shared: SharedView, cause: ErrorStateCause) -> (ErrorState, SharedView) {
    let state = ErrorState {
        cause,
        allow_lan: shared.allow_lan,
        allowed_endpoint: shared.allowed_endpoint,
    };
    (state, shared.issue(EffectView::ApplyFirewallPolicy(policy(state))))
}

/// Entering the error state, as a consequence of a dispatch.
pub open spec fn enter_consequence(
    shared: SharedView,
    cause: ErrorStateCause,
) -> (ConsequenceView, SharedView) {
    let (state, after) = enter(shared, cause);
    (
        ConsequenceView::NewState(
            TunnelStateView::Error(state),
            TunnelStateTransition::Error(cause),
        ),
        after,
    )
}

/// The transition function of the error state.
pub open spec fn step(
    state: ErrorState,
    event: Option<Event>,
    shared: SharedView,
) -> (ConsequenceView, SharedView) {
    let same = ConsequenceView::SameState(TunnelStateView::Error(state));
    match event {
        None => (ConsequenceView::Finished, shared.issue(EffectView::ResetDns)),
        Some(Event::Command(command)) => match command {
            TunnelCommand::AllowLan(allow_lan) => {
                let stored = store_setting(command, shared);
                if state.allow_lan && !allow_lan {
                    let stricter = ErrorState { allow_lan: false, ..state };
                    (
                        ConsequenceView::SameState(TunnelStateView::Error(stricter)),
                        stored.issue(EffectView::ApplyFirewallPolicy(policy(stricter))),
                    )
                } else {
                    (same, stored)
                }
            },
            TunnelCommand::AllowEndpoint(_, _)
            | TunnelCommand::Dns(_)
            | TunnelCommand::BlockWhenDisconnected(_)
            | TunnelCommand::IsOffline(_) => (same, store_setting(command, shared)),
            TunnelCommand::Connect => connecting_state::enter_consequence(shared, 0),
            TunnelCommand::Disconnect => disconnected_state::enter_consequence(shared, true),
            TunnelCommand::Block(cause) => (
                ConsequenceView::NewState(
                    TunnelStateView::Error(ErrorState { cause, ..state }),
                    TunnelStateTransition::Error(cause),
                ),
                shared,
            ),
            _ => (same, platform_command(command, shared)),
        },
        Some(_) => (same, shared),
    }
}

impl ErrorState {
    /// The blocking policy that this state keeps in force.
    pub fn firewall_policy(&self) -> (applied: FirewallPolicy)
        ensures
            applied@ == policy(*self),
    {
        FirewallPolicy::Blocked {
            allow_lan: self.allow_lan,
            allowed_endpoint: self.allowed_endpoint,
            allowed_ips: IpSet::new(),
            allowed_resolvers: IpSet::new(),
        }
    }

    /// Enters the error state for `cause`: requests the blocking policy
    /// with the current exceptions.
    pub fn enter(
        shared: &mut SharedTunnelStateValues,
        cause: ErrorStateCause,
    ) -> (entered: (TunnelStateWrapper, TunnelStateTransition))
        ensures
            (ConsequenceView::NewState(entered.0@, entered.1), final(shared)@) == enter_consequence(
                old(shared)@,
                cause,
            ),
            old(shared).wf() ==> final(shared).wf(),
    {
        let state = ErrorState {
            cause,
            allow_lan: shared.allow_lan,
            allowed_endpoint: shared.allowed_endpoint,
        };
        shared.issue(Effect::ApplyFirewallPolicy(state.firewall_policy()));
        (TunnelStateWrapper::Error(state), TunnelStateTransition::Error(cause))
    }

    /// Handles one event, or the closing of the event source (`None`).
    ///
    /// Settings are stored; the policy in force is only ever tightened.
    /// `Connect` and `Disconnect` leave the state.
    pub fn handle_event(
        self,
        event: Option<Event>,
        shared: &mut SharedTunnelStateValues,
    ) -> (consequence: EventConsequence)
        ensures
            (consequence@, final(shared)@) == step(self, event, old(shared)@),
            old(shared).wf() ==> final(shared).wf(),
    {
        match event {
            None => {
                shared.issue(Effect::ResetDns);
                EventConsequence::Finished
            },
            Some(Event::Command(command)) => match command {
                TunnelCommand::AllowLan(allow_lan) => {
                    apply_setting(TunnelCommand::AllowLan(allow_lan), shared);
                    if self.allow_lan && !allow_lan {
                        let stricter = ErrorState { allow_lan: false, ..self };
                        shared.issue(Effect::ApplyFirewallPolicy(stricter.firewall_policy()));
                        EventConsequence::SameState(TunnelStateWrapper::Error(stricter))
                    } else {
                        EventConsequence::SameState(TunnelStateWrapper::Error(self))
                    }
                },
                TunnelCommand::AllowEndpoint(_, _)
                | TunnelCommand::Dns(_)
                | TunnelCommand::BlockWhenDisconnected(_)
                | TunnelCommand::IsOffline(_) => {
                    apply_setting(command, shared);
                    EventConsequence::SameState(TunnelStateWrapper::Error(self))
                },
                TunnelCommand::Connect => {
                    let (state, transition) = ConnectingState::enter(shared, 0);
                    EventConsequence::NewState(state, transition)
                },
                TunnelCommand::Disconnect => {
                    let (state, transition) = DisconnectedState::enter(shared, true);
                    EventConsequence::NewState(state, transition)
                },
                TunnelCommand::Block(cause) => EventConsequence::NewState(
                    TunnelStateWrapper::Error(ErrorState { cause, ..self }),
                    TunnelStateTransition::Error(cause),
                ),
                _ => {
                    apply_platform_command(command, shared);
                    EventConsequence::SameState(TunnelStateWrapper::Error(self))
                },
            },
            Some(_) => EventConsequence::SameState(TunnelStateWrapper::Error(self)),
        }
    }
}

} // verus!
