//! The tunnel state machine: five mutually exclusive states over one
//! set of shared values.

pub mod connected_state;
pub mod connecting_state;
pub mod disconnected_state;
pub mod disconnecting_state;
pub mod error_state;
pub mod laws;

use vstd::prelude::*;
use crate::command::{Event, ResolverOutcomes, ResolverStep, TunnelCommand};
use crate::effect::{paths_view, AckError, Effect, EffectView};
use crate::net::{servers_view, Endpoint, IpAddr};
use crate::shared::{Capabilities, SharedTunnelStateValues, SharedView};
use crate::transition::TunnelStateTransition;
use connected_state::{ConnectedState, ConnectedView};
use connecting_state::ConnectingState;
use disconnected_state::{DisconnectedState, DisconnectedView};
use disconnecting_state::DisconnectingState;
use error_state::ErrorState;

verus! {

/// The state that is live, with the data it carries.
pub enum TunnelStateWrapper {
    Disconnected(DisconnectedState),
    Connecting(ConnectingState),
    Connected(ConnectedState),
    Disconnecting(DisconnectingState),
    Error(ErrorState),
}

/// Mathematical content of a [`TunnelStateWrapper`].
pub enum TunnelStateView {
    Disconnected(DisconnectedView),
    Connecting(ConnectingState),
    Connected(ConnectedView),
    Disconnecting(DisconnectingState),
    Error(ErrorState),
}

impl View for TunnelStateWrapper {
    type V = TunnelStateView;

    open spec fn view(&self) -> TunnelStateView {
        match *self {
            TunnelStateWrapper::Disconnected(state) => TunnelStateView::Disconnected(state@),
            TunnelStateWrapper::Connecting(state) => TunnelStateView::Connecting(state),
            TunnelStateWrapper::Connected(state) => TunnelStateView::Connected(state@),
            TunnelStateWrapper::Disconnecting(state) => TunnelStateView::Disconnecting(state),
            TunnelStateWrapper::Error(state) => TunnelStateView::Error(state),
        }
    }
}

/// What one dispatch leads to.
pub enum EventConsequence {
    /// The state is replaced; the transition is announced.
    NewState(TunnelStateWrapper, TunnelStateTransition),
    /// The state stays, possibly with changed data.
    SameState(TunnelStateWrapper),
    /// The source of events is closed: the machine stops.
    Finished,
}

/// Mathematical content of an [`EventConsequence`].
pub enum ConsequenceView {
    NewState(TunnelStateView, TunnelStateTransition),
    SameState(TunnelStateView),
    Finished,
}

impl View for EventConsequence {
    type V = ConsequenceView;

    open spec fn view(&self) -> ConsequenceView {
        match *self {
            EventConsequence::NewState(state, transition) => ConsequenceView::NewState(
                state@,
                transition,
            ),
            EventConsequence::SameState(state) => ConsequenceView::SameState(state@),
            EventConsequence::Finished => ConsequenceView::Finished,
        }
    }
}

/// What a command that only some platforms or states serve leads to
/// outside the disconnected state: the request is handed on where the
/// capability exists, the switch of the local resolver is stored, and
/// everything else is answered as unavailable.
pub open spec fn platform_command(command: TunnelCommand, shared: SharedView) -> SharedView {
    match command {
        TunnelCommand::BypassSocket(fd, ack) => {
            if shared.capabilities.tun_provider {
                shared.issue(EffectView::BypassSocket { fd, ack })
            } else {
                shared.acknowledge(ack, Err(AckError::Unavailable))
            }
        },
        TunnelCommand::SetExcludedApps(ack, paths) => {
            if shared.capabilities.split_tunnel {
                shared.issue(EffectView::SetExcludedPaths { paths: paths_view(paths), ack })
            } else {
                shared.acknowledge(ack, Err(AckError::Unavailable))
            }
        },
        TunnelCommand::SetCustomResolver(enable, ack, _) => {
            if shared.capabilities.custom_resolver {
                (SharedView { enable_custom_resolver: enable, ..shared }).acknowledge(ack, Ok(()))
            } else {
                shared.acknowledge(ack, Err(AckError::Unavailable))
            }
        },
        TunnelCommand::AddAllowedIps(_, ack) => shared.acknowledge(
            ack,
            Err(AckError::Unavailable),
        ),
        _ => shared,
    }
}

/// What a command that only stores a setting leads to.
pub open spec fn store_setting(command: TunnelCommand, shared: SharedView) -> SharedView {
    match command {
        TunnelCommand::AllowLan(allow_lan) => SharedView { allow_lan, ..shared },
        TunnelCommand::AllowEndpoint(endpoint, ack) => (SharedView {
            allowed_endpoint: Some(endpoint),
            ..shared
        }).acknowledge(ack, Ok(())),
        TunnelCommand::Dns(servers) => SharedView { dns_servers: servers_view(servers), ..shared },
        TunnelCommand::BlockWhenDisconnected(block_when_disconnected) => SharedView {
            block_when_disconnected,
            ..shared
        },
        TunnelCommand::IsOffline(is_offline) => SharedView { is_offline, ..shared },
        _ => shared,
    }
}

/// Carries out [`store_setting`].
pub fn apply_setting(command: TunnelCommand, shared: &mut SharedTunnelStateValues)
    ensures
        final(shared)@ == store_setting(command, old(shared)@),
        old(shared).wf() ==> final(shared).wf(),
{
    match command {
        TunnelCommand::AllowLan(allow_lan) => {
            shared.set_allow_lan(allow_lan);
        },
        TunnelCommand::AllowEndpoint(endpoint, ack) => {
            shared.set_allowed_endpoint(endpoint);
            shared.acknowledge(ack, Ok(()));
        },
        TunnelCommand::Dns(servers) => {
            shared.set_dns_servers(servers);
        },
        TunnelCommand::BlockWhenDisconnected(block_when_disconnected) => {
            shared.block_when_disconnected = block_when_disconnected;
        },
        TunnelCommand::IsOffline(is_offline) => {
            shared.is_offline = is_offline;
        },
        _ => {},
    }
}

/// Carries out [`platform_command`].
pub fn apply_platform_command(command: TunnelCommand, shared: &mut SharedTunnelStateValues)
    ensures
        final(shared)@ == platform_command(command, old(shared)@),
        old(shared).wf() ==> final(shared).wf(),
{
    match command {
        TunnelCommand::BypassSocket(fd, ack) => {
            if shared.capabilities.tun_provider {
                shared.issue(Effect::BypassSocket { fd, ack });
            } else {
                shared.acknowledge(ack, Err(AckError::Unavailable));
            }
        },
        TunnelCommand::SetExcludedApps(ack, paths) => {
            if shared.capabilities.split_tunnel {
                shared.issue(Effect::SetExcludedPaths { paths, ack });
            } else {
                shared.acknowledge(ack, Err(AckError::Unavailable));
            }
        },
        TunnelCommand::SetCustomResolver(enable, ack, _) => {
            if shared.capabilities.custom_resolver {
                shared.enable_custom_resolver = enable;
                shared.acknowledge(ack, Ok(()));
            } else {
                shared.acknowledge(ack, Err(AckError::Unavailable));
            }
        },
        TunnelCommand::AddAllowedIps(_, ack) => {
            shared.acknowledge(ack, Err(AckError::Unavailable));
        },
        _ => {},
    }
}

/// The transition function of the state `state`.
pub open spec fn state_step(
    state: TunnelStateView,
    event: Option<Event>,
    shared: SharedView,
) -> (ConsequenceView, SharedView) {
    match state {
        TunnelStateView::Disconnected(s) => disconnected_state::step(s, event, shared),
        TunnelStateView::Connecting(s) => connecting_state::step(s, event, shared),
        TunnelStateView::Connected(s) => connected_state::step(s, event, shared),
        TunnelStateView::Disconnecting(s) => disconnecting_state::step(s, event, shared),
        TunnelStateView::Error(s) => error_state::step(s, event, shared),
    }
}

impl TunnelStateWrapper {
    /// Hands the event, or the closing of the event source (`None`), to
    /// the live state.
    pub fn handle_event(
        self,
        event: Option<Event>,
        shared_values: &mut SharedTunnelStateValues,
    ) -> (consequence: EventConsequence)
        ensures
            (consequence@, final(shared_values)@) == state_step(self@, event, old(shared_values)@),
            old(shared_values).wf() ==> final(shared_values).wf(),
    {
        match self {
            TunnelStateWrapper::Disconnected(state) => state.handle_event(event, shared_values),
            TunnelStateWrapper::Connecting(state) => state.handle_event(event, shared_values),
            TunnelStateWrapper::Connected(state) => state.handle_event(event, shared_values),
            TunnelStateWrapper::Disconnecting(state) => state.handle_event(event, shared_values),
            TunnelStateWrapper::Error(state) => state.handle_event(event, shared_values),
        }
    }

    /// The state as it is announced to observers.
    pub fn transition(&self) -> (announced: TunnelStateTransition)
        ensures
            announced == self@.transition(),
    {
        match self {
            TunnelStateWrapper::Disconnected(_) => TunnelStateTransition::Disconnected,
            TunnelStateWrapper::Connecting(_) => TunnelStateTransition::Connecting,
            TunnelStateWrapper::Connected(state) => TunnelStateTransition::Connected(
                state.metadata.endpoint,
            ),
            TunnelStateWrapper::Disconnecting(state) => TunnelStateTransition::Disconnecting(
                state.after_disconnect,
            ),
            TunnelStateWrapper::Error(state) => TunnelStateTransition::Error(state.cause),
        }
    }
}

impl TunnelStateView {
    /// The state as it is announced to observers.
    pub open spec fn transition(self) -> TunnelStateTransition {
        match self {
            TunnelStateView::Disconnected(_) => TunnelStateTransition::Disconnected,
            TunnelStateView::Connecting(_) => TunnelStateTransition::Connecting,
            TunnelStateView::Connected(state) => TunnelStateTransition::Connected(
                state.metadata.endpoint,
            ),
            TunnelStateView::Disconnecting(state) => TunnelStateTransition::Disconnecting(
                state.after_disconnect,
            ),
            TunnelStateView::Error(state) => TunnelStateTransition::Error(state.cause),
        }
    }
}

/// The machine: the live state, if the machine has not stopped, and the
/// shared values.
pub struct TunnelStateMachine {
    current_state: Option<TunnelStateWrapper>,
    shared_values: SharedTunnelStateValues,
}

/// Mathematical content of a [`TunnelStateMachine`].
pub struct MachineView {
    /// The live state; `None` once the machine has stopped.
    pub state: Option<TunnelStateView>,
    pub shared: SharedView,
}

impl View for TunnelStateMachine {
    type V = MachineView;

    closed spec fn view(&self) -> MachineView {
        MachineView {
            state: match self.current_state {
                Some(state) => Some(state@),
                None => None,
            },
            shared: self.shared_values@,
        }
    }
}

impl MachineView {
    /// Whether the machine is in the disconnected state.
    pub open spec fn is_disconnected(self) -> bool {
        self.state is Some && self.state->0 is Disconnected
    }

    /// Whether the machine is in the connecting state.
    pub open spec fn is_connecting(self) -> bool {
        self.state is Some && self.state->0 is Connecting
    }

    /// Whether the machine is in the connected state.
    pub open spec fn is_connected(self) -> bool {
        self.state is Some && self.state->0 is Connected
    }

    /// Whether the machine is in the disconnecting state.
    pub open spec fn is_disconnecting(self) -> bool {
        self.state is Some && self.state->0 is Disconnecting
    }

    /// Whether the machine is in the error state.
    pub open spec fn is_error(self) -> bool {
        self.state is Some && self.state->0 is Error
    }
}

/// The settings that the machine starts with.
pub struct InitialTunnelState {
    pub allow_lan: bool,
    pub block_when_disconnected: bool,
    pub dns_servers: Option<Vec<IpAddr>>,
    pub allowed_endpoint: Option<Endpoint>,
    /// Whether rules of an earlier run may be in force.
    pub reset_firewall: bool,
}

/// The machine at startup: disconnected, entered over fresh shared values.
pub open spec fn start(settings: InitialTunnelState, capabilities: Capabilities) -> MachineView {
    let fresh = SharedView {
        allow_lan: settings.allow_lan,
        allowed_endpoint: settings.allowed_endpoint,
        block_when_disconnected: settings.block_when_disconnected,
        dns_servers: servers_view(settings.dns_servers),
        is_offline: false,
        enable_custom_resolver: false,
        capabilities,
        firewall: crate::firewall::FirewallStatusView::Unfiltered,
        dns: crate::shared::DnsStatusView::System,
        requests: Seq::empty(),
        history: Seq::empty(),
        dns_resets: 0,
        firewall_requests: 0,
        announcements: 0,
        answers: vstd::multiset::Multiset::empty(),
    };
    let (state, shared) = disconnected_state::enter(fresh, settings.reset_firewall);
    MachineView { state: Some(TunnelStateView::Disconnected(state)), shared }
}

/// What a switch of the local resolver needs from a collaborator next:
/// what the disconnected state asks for, and nothing in any other state.
pub open spec fn machine_inquiry(
    machine: MachineView,
    enable: bool,
    outcomes: ResolverOutcomes,
) -> Option<(ResolverStep, EffectView)> {
    match machine.state {
        Some(TunnelStateView::Disconnected(state)) => disconnected_state::resolver_inquiry(
            state,
            enable,
            outcomes,
            machine.shared,
        ),
        _ => None,
    }
}

/// One turn of the machine: the live state handles the event; a new
/// state is installed and announced; the closing of the source stops the
/// machine. A machine that has stopped ignores everything.
pub open spec fn machine_step(machine: MachineView, event: Option<Event>) -> MachineView {
    match machine.state {
        None => machine,
        Some(state) => {
            let (consequence, shared) = state_step(state, event, machine.shared);
            match consequence {
                ConsequenceView::NewState(next, transition) => MachineView {
                    state: Some(next),
                    shared: shared.issue(EffectView::Notify(transition)),
                },
                ConsequenceView::SameState(next) => MachineView { state: Some(next), shared },
                ConsequenceView::Finished => MachineView { state: None, shared },
            }
        },
    }
}

impl TunnelStateMachine {
    /// The records of the machine agree with the requests it has made.
    pub open spec fn wf(&self) -> bool {
        self@.shared.wf()
    }

    /// What holds of the machine between any two turns: its records agree
    /// with the requests it has made, and the firewall and DNS agree with
    /// the live state and the settings.
    pub open spec fn inv(&self) -> bool {
        self.wf() && laws::machine_consistent(self@)
    }

    /// Starts the machine in the disconnected state.
    pub fn new(
        settings: InitialTunnelState,
        capabilities: Capabilities,
    ) -> (machine: TunnelStateMachine)
        ensures
            machine.inv(),
            machine@ == start(settings, capabilities),
    {
        proof {
            laws::law_start_is_consistent(settings, capabilities);
        }
        let mut shared_values = SharedTunnelStateValues::new(
            settings.allow_lan,
            settings.block_when_disconnected,
            settings.dns_servers,
            settings.allowed_endpoint,
            capabilities,
        );
        let (initial_state, _) = DisconnectedState::enter(
            &mut shared_values,
            settings.reset_firewall,
        );
        TunnelStateMachine { current_state: Some(initial_state), shared_values }
    }

    /// Takes one turn on the event, or on the closing of the event
    /// source (`None`).
    ///
    /// Before a switch of the local resolver is handed in, the driver
    /// carries out what [`TunnelStateMachine::resolver_inquiry`] asks for
    /// and notes the answers in the command. After the turn it takes the
    /// requests with [`TunnelStateMachine::take_requests`], carries them
    /// out in order and hands back, as the next events and before any
    /// other, the reports that [`crate::effect::Effect::report`] asks for.
    ///
    /// Whoever waits for the completion of a command is answered in this
    /// turn, exactly once, whatever the collaborators answered.
    pub fn handle_event(&mut self, event: Option<Event>)
        ensures
            final(self)@ == machine_step(old(self)@, event),
            old(self).wf() ==> final(self).wf(),
            old(self).inv() ==> final(self).inv(),
            old(self)@.state is Some ==> final(self)@.shared.answers =~= old(
                self,
            )@.shared.answers.add(laws::carried(event)),
    {
        proof {
            if self.inv() {
                laws::law_machine_stays_consistent(self@, event);
            }
            if self@.state is Some {
                laws::law_acknowledged_exactly_once(self@.state->0, event, self@.shared);
            }
        }
        let mut current: Option<TunnelStateWrapper> = None;
        core::mem::swap(&mut current, &mut self.current_state);
        match current {
            None => {},
            Some(state) => {
                match state.handle_event(event, &mut self.shared_values) {
                    EventConsequence::NewState(next, transition) => {
                        self.shared_values.issue(Effect::Notify(transition));
                        self.current_state = Some(next);
                    },
                    EventConsequence::SameState(next) => {
                        self.current_state = Some(next);
                    },
                    EventConsequence::Finished => {},
                }
            },
        }
    }

    /// Hands the pending requests to the driver, oldest first.
    pub fn take_requests(&mut self) -> (taken: Vec<Effect>)
        ensures
            crate::effect::effects_view(taken@) == old(self)@.shared.requests,
            final(self)@ == (MachineView {
                shared: SharedView { requests: Seq::empty(), ..old(self)@.shared },
                ..old(self)@
            }),
            old(self).wf() ==> final(self).wf(),
            old(self).inv() ==> final(self).inv(),
    {
        self.shared_values.take_requests()
    }

    /// Whether the machine has stopped.
    pub fn is_finished(&self) -> (finished: bool)
        ensures
            finished == self@.state.is_none(),
    {
        self.current_state.is_none()
    }

    /// What a switch of the local resolver to `enable` needs from a
    /// collaborator next, given the answers so far: the step and its
    /// request, or nothing where the machine can take its turn on the
    /// command. Only the disconnected state inquires.
    pub fn resolver_inquiry(&self, enable: bool, outcomes: &ResolverOutcomes) -> (inquiry: Option<
        (ResolverStep, Effect),
    >)
        ensures
            match inquiry {
                Some((step, request)) => machine_inquiry(self@, enable, *outcomes) == Some(
                    (step, request@),
                ),
                None => machine_inquiry(self@, enable, *outcomes) is None,
            },
    {
        match &self.current_state {
            Some(TunnelStateWrapper::Disconnected(state)) => state.resolver_inquiry(
                enable,
                outcomes,
                &self.shared_values,
            ),
            _ => None,
        }
    }

    /// The live state; `None` once the machine has stopped.
    pub fn state(&self) -> (state: &Option<TunnelStateWrapper>)
        ensures
            self@.state == match *state {
                Some(s) => Some(s@),
                None => None,
            },
    {
        &self.current_state
    }

    /// The shared values.
    pub fn shared_values(&self) -> (shared: &SharedTunnelStateValues)
        ensures
            shared@ == self@.shared,
    {
        &self.shared_values
    }
}

} // verus!
