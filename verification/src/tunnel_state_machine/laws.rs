//! What holds of every run of the machine.
//!
//! The laws are the public proof functions whose names begin with `law_`.
//! Most of them are proved state by state: each state's transition
//! function is unfolded in a lemma of its own, which keeps every proof
//! obligation small.

use vstd::prelude::*;
use vstd::multiset::Multiset;
use crate::command::{Event, TunnelCommand, TunnelEvent};
use crate::effect::AckId;
use crate::firewall::FirewallStatusView;
use crate::shared::{DnsStatusView, SharedView};
use crate::transition::TunnelFailure;
use super::{
    connected_state, connecting_state, disconnected_state, error_state, machine_step, state_step,
    ConsequenceView, MachineView, TunnelStateView,
};
use super::connecting_state::{ConnectingState, MAX_RETRY_ATTEMPT};

verus! {

/// The DNS configuration is the system's own or one on a loopback
/// interface: it names no resolver of a tunnel.
pub open spec fn local_dns(dns: DnsStatusView) -> bool {
    match dns {
        DnsStatusView::System => true,
        DnsStatusView::Configured(config) => config.interface == "lo0"@ || config.interface
            == "lo"@,
    }
}

/// The firewall enforces exactly what the state and the settings call
/// for, and DNS names a tunnel's resolvers only while that tunnel is up.
///
/// Disconnected: the blocking policy with the current exceptions where
/// traffic is to be blocked, else no policy. Connecting and connected:
/// the policy of the tunnel under the current settings. Disconnecting:
/// still a policy of the tunnel. Error: the blocking policy with the
/// exceptions captured by the state.
pub open spec fn consistent(state: TunnelStateView, shared: SharedView) -> bool {
    match state {
        TunnelStateView::Disconnected(s) => {
            &&& shared.firewall == if shared.block_when_disconnected {
                FirewallStatusView::Applied(disconnected_state::blocked_policy(s, shared))
            } else {
                FirewallStatusView::Unfiltered
            }
            &&& local_dns(shared.dns)
        },
        TunnelStateView::Connecting(s) => {
            &&& shared.firewall == FirewallStatusView::Applied(connecting_state::policy(s, shared))
            &&& s.retry_attempt <= MAX_RETRY_ATTEMPT
            &&& local_dns(shared.dns)
        },
        TunnelStateView::Connected(s) => {
            &&& shared.firewall == FirewallStatusView::Applied(connected_state::policy(s, shared))
            &&& shared.dns == DnsStatusView::Configured(connected_state::dns_config(s, shared))
        },
        TunnelStateView::Disconnecting(_) => {
            &&& shared.firewall matches FirewallStatusView::Applied(policy)
            &&& policy is Connecting || policy is Connected
            &&& local_dns(shared.dns)
        },
        TunnelStateView::Error(s) => {
            &&& shared.firewall == FirewallStatusView::Applied(error_state::policy(s))
            &&& local_dns(shared.dns)
        },
    }
}

/// [`consistent`] of a machine: of its live state, if it has one.
pub open spec fn machine_consistent(machine: MachineView) -> bool {
    match machine.state {
        Some(state) => consistent(state, machine.shared),
        None => true,
    }
}

/// The state that a consequence leaves live, if any.
pub open spec fn next_state(consequence: ConsequenceView) -> Option<TunnelStateView> {
    match consequence {
        ConsequenceView::NewState(state, _) => Some(state),
        ConsequenceView::SameState(state) => Some(state),
        ConsequenceView::Finished => None,
    }
}

proof fn lemma_disconnected_command_consistent(
    state: disconnected_state::DisconnectedView,
    command: TunnelCommand,
    shared: SharedView,
)
    requires
        consistent(TunnelStateView::Disconnected(state), shared),
    ensures
        ({
            let (consequence, after) = disconnected_state::command_step(state, command, shared);
            next_state(consequence) matches Some(next) ==> consistent(next, after)
        }),
{
    match command {
        TunnelCommand::AllowLan(_) => {},
        TunnelCommand::AllowEndpoint(_, _) => {},
        TunnelCommand::Dns(_) => {},
        TunnelCommand::BlockWhenDisconnected(_) => {},
        TunnelCommand::IsOffline(_) => {},
        TunnelCommand::Connect => {},
        TunnelCommand::Disconnect => {},
        TunnelCommand::Block(_) => {},
        TunnelCommand::BypassSocket(_, _) => {},
        TunnelCommand::SetExcludedApps(_, _) => {},
        TunnelCommand::SetCustomResolver(enable, ack, outcomes) => {
            lemma_resolver_switch_consistent(state, enable, ack, outcomes, shared);
        },
        TunnelCommand::HostDnsConfig(_) => {},
        TunnelCommand::AddAllowedIps(ips, _) => {
            disconnected_state::lemma_nothing_new(ips@, state.allowed_ips);
        },
    }
}

proof fn lemma_resolver_switch_consistent(
    state: disconnected_state::DisconnectedView,
    enable: bool,
    ack: AckId,
    outcomes: crate::command::ResolverOutcomes,
    shared: SharedView,
)
    requires
        consistent(TunnelStateView::Disconnected(state), shared),
    ensures
        ({
            let (consequence, after) = disconnected_state::switch_resolver(
                state,
                enable,
                ack,
                outcomes,
                shared,
            );
            next_state(consequence) matches Some(next) ==> consistent(next, after)
        }),
{
}

proof fn lemma_disconnected_report_consistent(
    state: disconnected_state::DisconnectedView,
    report: crate::command::Report,
    shared: SharedView,
)
    requires
        consistent(TunnelStateView::Disconnected(state), shared),
    ensures
        ({
            let (consequence, after) = disconnected_state::report_step(state, report, shared);
            next_state(consequence) matches Some(next) ==> consistent(next, after)
        }),
{
}

proof fn lemma_disconnected_consistent(
    state: disconnected_state::DisconnectedView,
    event: Option<Event>,
    shared: SharedView,
)
    requires
        consistent(TunnelStateView::Disconnected(state), shared),
    ensures
        ({
            let (consequence, after) = disconnected_state::step(state, event, shared);
            next_state(consequence) matches Some(next) ==> consistent(next, after)
        }),
{
    match event {
        Some(Event::Command(command)) => {
            lemma_disconnected_command_consistent(state, command, shared);
        },
        Some(Event::Report(report)) => {
            lemma_disconnected_report_consistent(state, report, shared);
        },
        _ => {},
    }
}

proof fn lemma_connecting_consistent(
    state: ConnectingState,
    event: Option<Event>,
    shared: SharedView,
)
    requires
        consistent(TunnelStateView::Connecting(state), shared),
    ensures
        ({
            let (consequence, after) = connecting_state::step(state, event, shared);
            next_state(consequence) matches Some(next) ==> consistent(next, after)
        }),
{
}

proof fn lemma_connected_consistent(
    state: connected_state::ConnectedView,
    event: Option<Event>,
    shared: SharedView,
)
    requires
        consistent(TunnelStateView::Connected(state), shared),
    ensures
        ({
            let (consequence, after) = connected_state::step(state, event, shared);
            next_state(consequence) matches Some(next) ==> consistent(next, after)
        }),
{
}

proof fn lemma_disconnecting_consistent(
    state: super::disconnecting_state::DisconnectingState,
    event: Option<Event>,
    shared: SharedView,
)
    requires
        consistent(TunnelStateView::Disconnecting(state), shared),
    ensures
        ({
            let (consequence, after) = super::disconnecting_state::step(state, event, shared);
            next_state(consequence) matches Some(next) ==> consistent(next, after)
        }),
{
}

proof fn lemma_error_consistent(
    state: error_state::ErrorState,
    event: Option<Event>,
    shared: SharedView,
)
    requires
        consistent(TunnelStateView::Error(state), shared),
    ensures
        ({
            let (consequence, after) = error_state::step(state, event, shared);
            next_state(consequence) matches Some(next) ==> consistent(next, after)
        }),
{
}

/// No dispatch leaves a stale policy in force: where the firewall and
/// DNS agree with the state and the settings before an event, they agree
/// with the state and the settings that the event leaves.
pub proof fn law_policy_follows_state(
    state: TunnelStateView,
    event: Option<Event>,
    shared: SharedView,
)
    requires
        consistent(state, shared),
    ensures
        ({
            let (consequence, after) = state_step(state, event, shared);
            next_state(consequence) matches Some(next) ==> consistent(next, after)
        }),
{
    match state {
        TunnelStateView::Disconnected(s) => lemma_disconnected_consistent(s, event, shared),
        TunnelStateView::Connecting(s) => lemma_connecting_consistent(s, event, shared),
        TunnelStateView::Connected(s) => lemma_connected_consistent(s, event, shared),
        TunnelStateView::Disconnecting(s) => lemma_disconnecting_consistent(s, event, shared),
        TunnelStateView::Error(s) => lemma_error_consistent(s, event, shared),
    }
}

proof fn lemma_disconnected_command_records(
    state: disconnected_state::DisconnectedView,
    c: TunnelCommand,
    shared: SharedView,
)
    requires
        shared.wf(),
    ensures
        disconnected_state::command_step(state, c, shared).1.wf(),
{
    broadcast use {SharedView::lemma_issue_wf, SharedView::lemma_record_wf};

}

proof fn lemma_disconnected_report_records(
    state: disconnected_state::DisconnectedView,
    r: crate::command::Report,
    shared: SharedView,
)
    requires
        shared.wf(),
    ensures
        disconnected_state::report_step(state, r, shared).1.wf(),
{
    broadcast use {SharedView::lemma_issue_wf, SharedView::lemma_record_wf};

}

proof fn lemma_connecting_records(state: ConnectingState, event: Option<Event>, shared: SharedView)
    requires
        shared.wf(),
    ensures
        connecting_state::step(state, event, shared).1.wf(),
{
    broadcast use {SharedView::lemma_issue_wf, SharedView::lemma_record_wf};

}

proof fn lemma_connected_records(
    state: connected_state::ConnectedView,
    event: Option<Event>,
    shared: SharedView,
)
    requires
        shared.wf(),
    ensures
        connected_state::step(state, event, shared).1.wf(),
{
    broadcast use {SharedView::lemma_issue_wf, SharedView::lemma_record_wf};

}

proof fn lemma_disconnecting_records(
    state: super::disconnecting_state::DisconnectingState,
    event: Option<Event>,
    shared: SharedView,
)
    requires
        shared.wf(),
    ensures
        super::disconnecting_state::step(state, event, shared).1.wf(),
{
    broadcast use {SharedView::lemma_issue_wf, SharedView::lemma_record_wf};

}

proof fn lemma_error_records(
    state: error_state::ErrorState,
    event: Option<Event>,
    shared: SharedView,
)
    requires
        shared.wf(),
    ensures
        error_state::step(state, event, shared).1.wf(),
{
    broadcast use {SharedView::lemma_issue_wf, SharedView::lemma_record_wf};

}

/// The records of what the firewall and DNS were last told are true to
/// the requests made: where they are what the history of requests leaves
/// in force before a dispatch, they are so after it.
pub proof fn law_records_follow_requests(
    state: TunnelStateView,
    event: Option<Event>,
    shared: SharedView,
)
    requires
        shared.wf(),
    ensures
        state_step(state, event, shared).1.wf(),
        machine_step(MachineView { state: Some(state), shared }, event).shared.wf(),
{
    broadcast use {SharedView::lemma_issue_wf, SharedView::lemma_record_wf};

    match state {
        TunnelStateView::Disconnected(s) => {
            match event {
                Some(Event::Command(c)) => lemma_disconnected_command_records(s, c, shared),
                Some(Event::Report(r)) => lemma_disconnected_report_records(s, r, shared),
                _ => {},
            }
        },
        TunnelStateView::Connecting(s) => lemma_connecting_records(s, event, shared),
        TunnelStateView::Connected(s) => lemma_connected_records(s, event, shared),
        TunnelStateView::Disconnecting(s) => lemma_disconnecting_records(s, event, shared),
        TunnelStateView::Error(s) => lemma_error_records(s, event, shared),
    }
}

/// The event that a command makes.
pub open spec fn command(command: TunnelCommand) -> Option<Event> {
    Some(Event::Command(command))
}

/// The event that the tunnel monitor makes of a tunnel that went down.
pub open spec fn tunnel_down(failure: TunnelFailure) -> Option<Event> {
    Some(Event::Tunnel(TunnelEvent::Down(failure)))
}

/// At startup the firewall agrees with the state and the settings: the
/// blocking policy with empty sets of allowed addresses is in force where
/// traffic is to be blocked while disconnected, and none else.
pub proof fn law_start_is_consistent(
    settings: super::InitialTunnelState,
    capabilities: crate::shared::Capabilities,
)
    ensures
        machine_consistent(super::start(settings, capabilities)),
        super::start(settings, capabilities).is_disconnected(),
{
}

/// Entry into the disconnected state brings the firewall in line with
/// the settings wherever the flag allows it: where traffic is to be
/// blocked, where a reset is asked for, or where no policy is in force.
/// Where nothing is blocked and no reset is asked for, a policy that is
/// in force stays: that is what the flag is for.
pub proof fn law_entry_is_consistent(shared: SharedView, should_reset_firewall: bool)
    requires
        local_dns(shared.dns),
        should_reset_firewall || shared.block_when_disconnected || shared.firewall
            == FirewallStatusView::Unfiltered,
    ensures
        consistent(
            TunnelStateView::Disconnected(
                disconnected_state::enter(shared, should_reset_firewall).0,
            ),
            disconnected_state::enter(shared, should_reset_firewall).1,
        ),
        !should_reset_firewall && !shared.block_when_disconnected
            ==> disconnected_state::enter(shared, should_reset_firewall).1.firewall
            == shared.firewall,
{
}

/// One turn of the machine keeps the firewall and DNS in agreement with
/// the state and the settings.
pub proof fn law_machine_stays_consistent(machine: MachineView, event: Option<Event>)
    requires
        machine_consistent(machine),
    ensures
        machine_consistent(machine_step(machine, event)),
{
    match machine.state {
        Some(state) => {
            law_policy_follows_state(state, event, machine.shared);
        },
        None => {},
    }
}

/// The machine after the events of `events`, in order.
pub open spec fn run(machine: MachineView, events: Seq<Option<Event>>) -> MachineView
    decreases events.len(),
{
    if events.len() == 0 {
        machine
    } else {
        run(machine_step(machine, events[0]), events.drop_first())
    }
}

proof fn lemma_run_keeps_invariant(machine: MachineView, events: Seq<Option<Event>>)
    requires
        machine.shared.wf(),
        machine_consistent(machine),
    ensures
        run(machine, events).shared.wf(),
        machine_consistent(run(machine, events)),
    decreases events.len(),
{
    if events.len() > 0 {
        law_machine_stays_consistent(machine, events[0]);
        if machine.state is Some {
            law_records_follow_requests(machine.state->0, events[0], machine.shared);
        }
        lemma_run_keeps_invariant(machine_step(machine, events[0]), events.drop_first());
    }
}

/// In every state that the machine can reach from its start, whatever
/// the events, the policy that the firewall was last told is the one that
/// the state and the settings call for, DNS names the resolvers of a
/// tunnel only while that tunnel is up, and both records are what the
/// requests made so far leave in force.
pub proof fn law_reachable_states_are_consistent(
    settings: super::InitialTunnelState,
    capabilities: crate::shared::Capabilities,
    events: Seq<Option<Event>>,
)
    ensures
        machine_consistent(run(super::start(settings, capabilities), events)),
        run(super::start(settings, capabilities), events).shared.wf(),
{
    broadcast use {SharedView::lemma_issue_wf, SharedView::lemma_record_wf};

    law_start_is_consistent(settings, capabilities);
    let started = super::start(settings, capabilities);
    assert(started.shared.wf());
    lemma_run_keeps_invariant(started, events);
}

/// What a consequence announces, where it announces something, is the
/// state that it leads to.
pub open spec fn mirrors(consequence: ConsequenceView) -> bool {
    match consequence {
        ConsequenceView::NewState(next, announced) => announced == next.transition(),
        _ => true,
    }
}

proof fn lemma_disconnected_command_mirrors(
    state: disconnected_state::DisconnectedView,
    command: TunnelCommand,
    shared: SharedView,
)
    ensures
        mirrors(disconnected_state::command_step(state, command, shared).0),
        disconnected_state::command_step(state, command, shared).1.announcements
            == shared.announcements,
{
}

proof fn lemma_disconnected_report_mirrors(
    state: disconnected_state::DisconnectedView,
    report: crate::command::Report,
    shared: SharedView,
)
    ensures
        mirrors(disconnected_state::report_step(state, report, shared).0),
        disconnected_state::report_step(state, report, shared).1.announcements
            == shared.announcements,
{
}

proof fn lemma_connecting_mirrors(state: ConnectingState, event: Option<Event>, shared: SharedView)
    ensures
        mirrors(connecting_state::step(state, event, shared).0),
        connecting_state::step(state, event, shared).1.announcements == shared.announcements,
{
}

proof fn lemma_connected_mirrors(
    state: connected_state::ConnectedView,
    event: Option<Event>,
    shared: SharedView,
)
    ensures
        mirrors(connected_state::step(state, event, shared).0),
        connected_state::step(state, event, shared).1.announcements == shared.announcements,
{
}

proof fn lemma_disconnecting_mirrors(
    state: super::disconnecting_state::DisconnectingState,
    event: Option<Event>,
    shared: SharedView,
)
    ensures
        mirrors(super::disconnecting_state::step(state, event, shared).0),
        super::disconnecting_state::step(state, event, shared).1.announcements
            == shared.announcements,
{
}

proof fn lemma_error_mirrors(
    state: error_state::ErrorState,
    event: Option<Event>,
    shared: SharedView,
)
    ensures
        mirrors(error_state::step(state, event, shared).0),
        error_state::step(state, event, shared).1.announcements == shared.announcements,
{
}

/// Every transition is announced once, as the state that it leads to,
/// and nothing else is announced: a turn that replaces the state ends
/// with the one announcement of the new state, and any other turn
/// announces nothing.
pub proof fn law_transition_mirrors_state(
    state: TunnelStateView,
    event: Option<Event>,
    shared: SharedView,
)
    ensures
        mirrors(state_step(state, event, shared).0),
        state_step(state, event, shared).1.announcements == shared.announcements,
        ({
            let after = machine_step(MachineView { state: Some(state), shared }, event).shared;
            match state_step(state, event, shared).0 {
                ConsequenceView::NewState(next, _) => {
                    &&& after.announcements == shared.announcements + 1
                    &&& after.history.len() > 0
                    &&& after.history.last() == crate::effect::EffectView::Notify(next.transition())
                },
                _ => after.announcements == shared.announcements,
            }
        }),
{
    match state {
        TunnelStateView::Disconnected(s) => {
            match event {
                Some(Event::Command(c)) => lemma_disconnected_command_mirrors(s, c, shared),
                Some(Event::Report(r)) => lemma_disconnected_report_mirrors(s, r, shared),
                _ => {},
            }
        },
        TunnelStateView::Connecting(s) => lemma_connecting_mirrors(s, event, shared),
        TunnelStateView::Connected(s) => lemma_connected_mirrors(s, event, shared),
        TunnelStateView::Disconnecting(s) => lemma_disconnecting_mirrors(s, event, shared),
        TunnelStateView::Error(s) => lemma_error_mirrors(s, event, shared),
    }
}

proof fn lemma_disconnected_dns_resets(
    state: disconnected_state::DisconnectedView,
    event: Option<Event>,
    shared: SharedView,
)
    ensures
        disconnected_state::step(state, event, shared).1.dns_resets <= shared.dns_resets + 1,
        event is None ==> disconnected_state::step(state, event, shared).1.dns_resets
            == shared.dns_resets + 1,
{
    match event {
        Some(Event::Command(c)) => {
            assert(disconnected_state::command_step(state, c, shared).1.dns_resets
                <= shared.dns_resets + 1);
        },
        Some(Event::Report(r)) => {
            assert(disconnected_state::report_step(state, r, shared).1.dns_resets
                <= shared.dns_resets + 1);
        },
        _ => {},
    }
}

/// No dispatch resets DNS more than once, and the closing of the event
/// source resets it exactly once and ends the machine, whatever the
/// state.
pub proof fn law_dns_reset_at_most_once(
    state: TunnelStateView,
    event: Option<Event>,
    shared: SharedView,
)
    ensures
        state_step(state, event, shared).1.dns_resets <= shared.dns_resets + 1,
        event is None ==> state_step(state, event, shared).1.dns_resets == shared.dns_resets + 1,
        event is None ==> state_step(state, event, shared).0 is Finished,
        event is Some ==> !(state_step(state, event, shared).0 is Finished),
{
    match state {
        TunnelStateView::Disconnected(s) => {
            lemma_disconnected_dns_resets(s, event, shared);
        },
        TunnelStateView::Connecting(_) => {},
        TunnelStateView::Connected(_) => {},
        TunnelStateView::Disconnecting(_) => {},
        TunnelStateView::Error(_) => {},
    }
}

/// The closing of the event source stops the machine in one turn, with
/// exactly one reset of DNS and the firewall left as it is. A machine
/// that has stopped stays as it is.
pub proof fn law_closing_stops_machine(machine: MachineView, later: Option<Event>)
    requires
        machine.state is Some,
    ensures
        machine_step(machine, None).state is None,
        machine_step(machine, None).shared.dns_resets == machine.shared.dns_resets + 1,
        machine_step(machine, None).shared.firewall == machine.shared.firewall,
        machine_step(machine_step(machine, None), later) == machine_step(machine, None),
{
    law_dns_reset_at_most_once(machine.state->0, None, machine.shared);
    match machine.state->0 {
        TunnelStateView::Disconnected(s) => {},
        TunnelStateView::Connecting(_) => {},
        TunnelStateView::Connected(_) => {},
        TunnelStateView::Disconnecting(_) => {},
        TunnelStateView::Error(_) => {},
    }
}

/// Whatever ends the connected state resets DNS first: a dispatch that
/// leaves the connected state, for whichever state or for good, resets
/// DNS exactly once and leaves the system's own configuration in force;
/// and one that leads to the error state ends with the request for the
/// blocking policy.
pub proof fn law_leaving_connected_resets_dns(
    state: connected_state::ConnectedView,
    event: Option<Event>,
    shared: SharedView,
)
    ensures
        ({
            let (consequence, after) = connected_state::step(state, event, shared);
            &&& !(consequence is SameState) ==> {
                &&& after.dns_resets == shared.dns_resets + 1
                &&& after.dns == DnsStatusView::System
            }
            &&& consequence is SameState ==> after.dns_resets == shared.dns_resets
            &&& forall|entered: error_state::ErrorState|
                next_state(consequence) == Some(TunnelStateView::Error(entered)) ==> {
                    &&& after.history.len() > 0
                    &&& after.history.last() == crate::effect::EffectView::ApplyFirewallPolicy(
                        error_state::policy(entered),
                    )
                }
        }),
{
}

/// A tunnel is torn down with one reset of DNS: from the connected
/// state, `Disconnect` and then the report that the tunnel is down lead
/// to the disconnected state with DNS reset exactly once, on the first of
/// the two, and with the system's own configuration in force but for the
/// local resolver's.
pub proof fn law_teardown_resets_dns_once(machine: MachineView, failure: TunnelFailure)
    requires
        machine.is_connected(),
    ensures
        ({
            let stopping = machine_step(machine, command(TunnelCommand::Disconnect));
            let stopped = machine_step(stopping, tunnel_down(failure));
            &&& stopping.is_disconnecting()
            &&& stopping.shared.dns_resets == machine.shared.dns_resets + 1
            &&& stopping.shared.dns == DnsStatusView::System
            &&& stopped.is_disconnected()
            &&& stopped.shared.dns_resets == machine.shared.dns_resets + 1
            &&& local_dns(stopped.shared.dns)
        }),
{
}

/// The machine after `times` commands `AllowLan(allow_lan)` in a row.
pub open spec fn repeat_allow_lan(machine: MachineView, allow_lan: bool, times: nat) -> MachineView
    decreases times,
{
    if times == 0 {
        machine
    } else {
        repeat_allow_lan(
            machine_step(machine, command(TunnelCommand::AllowLan(allow_lan))),
            allow_lan,
            (times - 1) as nat,
        )
    }
}

proof fn lemma_allow_lan_once(machine: MachineView, allow_lan: bool)
    ensures
        ({
            let first = machine_step(machine, command(TunnelCommand::AllowLan(allow_lan)));
            &&& first.shared.firewall_requests <= machine.shared.firewall_requests + 1
            &&& machine_step(first, command(TunnelCommand::AllowLan(allow_lan))) == first
        }),
{
    match machine.state {
        Some(TunnelStateView::Disconnected(s)) => {},
        Some(TunnelStateView::Connecting(_)) => {},
        Some(TunnelStateView::Connected(_)) => {},
        Some(TunnelStateView::Disconnecting(_)) => {},
        Some(TunnelStateView::Error(_)) => {},
        None => {},
    }
}

proof fn lemma_allow_lan_settled(machine: MachineView, allow_lan: bool, times: nat)
    requires
        machine_step(machine, command(TunnelCommand::AllowLan(allow_lan))) == machine,
    ensures
        repeat_allow_lan(machine, allow_lan, times) == machine,
    decreases times,
{
    if times > 0 {
        lemma_allow_lan_settled(machine, allow_lan, (times - 1) as nat);
    }
}

/// Repeating `AllowLan` with one value changes the firewall at most
/// once: the first command decides, and every further one changes
/// nothing at all.
pub proof fn law_allow_lan_idempotent(machine: MachineView, allow_lan: bool, times: nat)
    ensures
        repeat_allow_lan(machine, allow_lan, times).shared.firewall_requests
            <= machine.shared.firewall_requests + 1,
        times >= 1 ==> repeat_allow_lan(machine, allow_lan, times) == machine_step(
            machine,
            command(TunnelCommand::AllowLan(allow_lan)),
        ),
{
    if times >= 1 {
        lemma_allow_lan_once(machine, allow_lan);
        lemma_allow_lan_settled(
            machine_step(machine, command(TunnelCommand::AllowLan(allow_lan))),
            allow_lan,
            (times - 1) as nat,
        );
    }
}

/// The machine after the tunnel went down for each of `failures` in
/// turn.
pub open spec fn run_failures(machine: MachineView, failures: Seq<TunnelFailure>) -> MachineView
    decreases failures.len(),
{
    if failures.len() == 0 {
        machine
    } else {
        run_failures(machine_step(machine, tunnel_down(failures[0])), failures.drop_first())
    }
}

proof fn lemma_error_outlasts_failures(machine: MachineView, failures: Seq<TunnelFailure>)
    requires
        machine.is_error(),
    ensures
        run_failures(machine, failures).is_error(),
    decreases failures.len(),
{
    if failures.len() > 0 {
        lemma_error_outlasts_failures(
            machine_step(machine, tunnel_down(failures[0])),
            failures.drop_first(),
        );
    }
}

/// Attempts to set up a tunnel are bounded: from the connecting state in
/// its attempt `n`, the machine is in the error state once the tunnel has
/// gone down more often than attempts were left.
pub proof fn law_retries_are_bounded(machine: MachineView, failures: Seq<TunnelFailure>)
    requires
        machine.is_connecting(),
        machine.state->0->Connecting_0.retry_attempt <= MAX_RETRY_ATTEMPT,
        failures.len() > MAX_RETRY_ATTEMPT - machine.state->0->Connecting_0.retry_attempt,
    ensures
        run_failures(machine, failures).is_error(),
    decreases failures.len(),
{
    let state = machine.state->0->Connecting_0;
    let next = machine_step(machine, tunnel_down(failures[0]));
    if failures[0] is AuthFailed || state.retry_attempt == MAX_RETRY_ATTEMPT {
        lemma_error_outlasts_failures(next, failures.drop_first());
    } else {
        law_retries_are_bounded(next, failures.drop_first());
    }
}

/// Whether none of `failures` is a failed authentication.
pub open spec fn all_retryable(failures: Seq<TunnelFailure>) -> bool {
    forall|i: int| 0 <= i < failures.len() ==> !(#[trigger] failures[i] is AuthFailed)
}

proof fn lemma_retry_keeps_connecting(machine: MachineView, failures: Seq<TunnelFailure>)
    requires
        machine.is_connecting(),
        machine.state->0->Connecting_0.retry_attempt + failures.len() <= MAX_RETRY_ATTEMPT,
        all_retryable(failures),
    ensures
        run_failures(machine, failures).is_connecting(),
    decreases failures.len(),
{
    if failures.len() > 0 {
        assert(!(failures[0] is AuthFailed));
        assert(all_retryable(failures.drop_first())) by {
            assert forall|i: int| 0 <= i < failures.drop_first().len() implies !(
            #[trigger] failures.drop_first()[i] is AuthFailed) by {
                assert(failures.drop_first()[i] == failures[i + 1]);
            }
        }
        lemma_retry_keeps_connecting(
            machine_step(machine, tunnel_down(failures[0])),
            failures.drop_first(),
        );
    }
}

/// `Connect` is decided in bounded time: from the disconnected state it
/// starts the first attempt; a tunnel that comes up after no more
/// failures than retries are allowed leads to the connected state; and
/// once the tunnel has gone down more often than that, the machine is in
/// the error state.
pub proof fn law_connect_is_decided(
    machine: MachineView,
    failures: Seq<TunnelFailure>,
    metadata: crate::net::TunnelMetadata,
)
    requires
        machine.is_disconnected(),
    ensures
        ({
            let connecting = machine_step(machine, command(TunnelCommand::Connect));
            &&& connecting.state == Some(
                TunnelStateView::Connecting(
                    ConnectingState { retry_attempt: 0, peer_endpoint: None },
                ),
            )
            &&& (failures.len() <= MAX_RETRY_ATTEMPT && all_retryable(failures)) ==> machine_step(
                run_failures(connecting, failures),
                Some(Event::Tunnel(TunnelEvent::Up(metadata))),
            ).is_connected()
            &&& failures.len() > MAX_RETRY_ATTEMPT ==> run_failures(connecting, failures).is_error()
        }),
{
    let connecting = machine_step(machine, command(TunnelCommand::Connect));
    if failures.len() <= MAX_RETRY_ATTEMPT && all_retryable(failures) {
        lemma_retry_keeps_connecting(connecting, failures);
    }
    if failures.len() > MAX_RETRY_ATTEMPT {
        law_retries_are_bounded(connecting, failures);
    }
}

/// The acknowledgment that an event asks for.
pub open spec fn carried(event: Option<Event>) -> Multiset<AckId> {
    match event {
        Some(Event::Command(c)) => match c.ack() {
            Some(ack) => Multiset::singleton(ack),
            None => Multiset::empty(),
        },
        _ => Multiset::empty(),
    }
}

/// The acknowledgments answered after a dispatch are those answered
/// before it, and the one that the event asked for.
pub open spec fn accounts_for(
    shared: SharedView,
    event: Option<Event>,
    outcome: (ConsequenceView, SharedView),
) -> bool {
    outcome.1.answers =~= shared.answers.add(carried(event))
}

proof fn lemma_resolver_switch_acknowledges(
    state: disconnected_state::DisconnectedView,
    enable: bool,
    ack: AckId,
    outcomes: crate::command::ResolverOutcomes,
    shared: SharedView,
)
    ensures
        disconnected_state::switch_resolver(state, enable, ack, outcomes, shared).1.answers
            =~= shared.answers.insert(ack),
{
}

proof fn lemma_disconnected_command_acknowledges(
    state: disconnected_state::DisconnectedView,
    c: TunnelCommand,
    shared: SharedView,
)
    ensures
        accounts_for(shared, command(c), disconnected_state::command_step(state, c, shared)),
{
    match c {
        TunnelCommand::SetCustomResolver(enable, ack, outcomes) => {
            lemma_resolver_switch_acknowledges(state, enable, ack, outcomes, shared);
        },
        _ => {},
    }
}

/// The disconnected state answers whoever waits for the completion of a
/// command in the turn that takes the command, exactly once, whatever
/// the collaborators answered; and it answers nobody else.
pub proof fn lemma_disconnected_acknowledges(
    state: disconnected_state::DisconnectedView,
    event: Option<Event>,
    shared: SharedView,
)
    ensures
        accounts_for(shared, event, disconnected_state::step(state, event, shared)),
{
    match event {
        Some(Event::Command(c)) => {
            lemma_disconnected_command_acknowledges(state, c, shared);
        },
        _ => {},
    }
}

proof fn lemma_connecting_acknowledges(
    state: ConnectingState,
    event: Option<Event>,
    shared: SharedView,
)
    ensures
        accounts_for(shared, event, connecting_state::step(state, event, shared)),
{
}

proof fn lemma_connected_acknowledges(
    state: connected_state::ConnectedView,
    event: Option<Event>,
    shared: SharedView,
)
    ensures
        accounts_for(shared, event, connected_state::step(state, event, shared)),
{
}

proof fn lemma_disconnecting_acknowledges(
    state: super::disconnecting_state::DisconnectingState,
    event: Option<Event>,
    shared: SharedView,
)
    ensures
        accounts_for(shared, event, super::disconnecting_state::step(state, event, shared)),
{
}

proof fn lemma_error_acknowledges(
    state: error_state::ErrorState,
    event: Option<Event>,
    shared: SharedView,
)
    ensures
        accounts_for(shared, event, error_state::step(state, event, shared)),
{
}

/// Every command that carries an acknowledgment channel is answered on
/// it exactly once, in the turn that takes the command, and nothing else
/// is answered: after every dispatch, each channel has been answered as
/// often as before, and once more where the event asked for it.
pub proof fn law_acknowledged_exactly_once(
    state: TunnelStateView,
    event: Option<Event>,
    shared: SharedView,
)
    ensures
        accounts_for(shared, event, state_step(state, event, shared)),
        forall|ack: AckId|
            #![trigger state_step(state, event, shared).1.answers.count(ack)]
            state_step(state, event, shared).1.answers.count(ack) == shared.answers.count(ack)
                + carried(event).count(ack),
{
    match state {
        TunnelStateView::Disconnected(s) => lemma_disconnected_acknowledges(s, event, shared),
        TunnelStateView::Connecting(s) => lemma_connecting_acknowledges(s, event, shared),
        TunnelStateView::Connected(s) => lemma_connected_acknowledges(s, event, shared),
        TunnelStateView::Disconnecting(s) => lemma_disconnecting_acknowledges(s, event, shared),
        TunnelStateView::Error(s) => lemma_error_acknowledges(s, event, shared),
    }
}

/// The position in the history, counted from the start of the turn, at
/// which a switch of the local resolver puts the request of `step`.
pub open spec fn place_of(step: crate::command::ResolverStep) -> int {
    match step {
        crate::command::ResolverStep::Deactivate => 0,
        crate::command::ResolverStep::ReadSystemDns => 0,
        crate::command::ResolverStep::AllowResolvers => 1,
        crate::command::ResolverStep::Activate => 2,
        crate::command::ResolverStep::Redirect => 3,
    }
}

/// What the machine asks for before a switch of the local resolver is
/// what its turn puts on record: once the answer to an inquiry is noted,
/// the turn on the command holds the request of that inquiry in its
/// history, at the place of its step, whatever the answer was.
pub proof fn law_turn_records_inquiry(
    state: disconnected_state::DisconnectedView,
    enable: bool,
    ack: AckId,
    outcomes: crate::command::ResolverOutcomes,
    outcome: crate::command::Outcome,
    shared: SharedView,
)
    requires
        disconnected_state::resolver_inquiry(state, enable, outcomes, shared) is Some,
    ensures
        ({
            let (step, request) = disconnected_state::resolver_inquiry(
                state,
                enable,
                outcomes,
                shared,
            )->0;
            let after = disconnected_state::switch_resolver(
                state,
                enable,
                ack,
                crate::command::noted(outcomes, step, outcome),
                shared,
            ).1;
            &&& shared.history.len() + place_of(step) < after.history.len()
            &&& after.history[shared.history.len() + place_of(step)] == request
        }),
{
}

/// Where nothing is left to inquire, the turn that switches the local
/// resolver leaves nothing for the driver to carry out but the answer
/// and, on the way to the error state, the blocking policy of that
/// state: every step of the switch is on record as carried out.
pub proof fn law_switch_leaves_only_the_answer(
    state: disconnected_state::DisconnectedView,
    enable: bool,
    ack: AckId,
    outcomes: crate::command::ResolverOutcomes,
    shared: SharedView,
)
    requires
        disconnected_state::resolver_inquiry(state, enable, outcomes, shared) is None,
    ensures
        ({
            let (consequence, after) = disconnected_state::switch_resolver(
                state,
                enable,
                ack,
                outcomes,
                shared,
            );
            &&& consequence is SameState ==> after.requests.len() == shared.requests.len() + 1
            &&& consequence is NewState ==> after.requests.len() == shared.requests.len() + 2
            &&& after.requests.len() > shared.requests.len()
            &&& after.requests[shared.requests.len() as int] is Acknowledge
            &&& after.requests.take(shared.requests.len() as int) =~= shared.requests
        }),
{
}

/// The setting that a command carries, as a predicate on the shared
/// values: that they hold it.
pub open spec fn stored(command: TunnelCommand, shared: SharedView) -> bool {
    match command {
        TunnelCommand::AllowLan(allow_lan) => shared.allow_lan == allow_lan,
        TunnelCommand::AllowEndpoint(endpoint, _) => shared.allowed_endpoint == Some(endpoint),
        TunnelCommand::Dns(servers) => shared.dns_servers == crate::net::servers_view(servers),
        TunnelCommand::BlockWhenDisconnected(block) => shared.block_when_disconnected == block,
        TunnelCommand::IsOffline(is_offline) => shared.is_offline == is_offline,
        _ => true,
    }
}

proof fn lemma_disconnected_stores(
    state: disconnected_state::DisconnectedView,
    c: TunnelCommand,
    shared: SharedView,
)
    ensures
        stored(c, disconnected_state::command_step(state, c, shared).1),
        disconnected_state::command_step(state, c, shared).1.capabilities == shared.capabilities,
{
}

proof fn lemma_disconnected_keeps_capabilities(
    state: disconnected_state::DisconnectedView,
    r: crate::command::Report,
    shared: SharedView,
)
    ensures
        disconnected_state::report_step(state, r, shared).1.capabilities == shared.capabilities,
{
}

proof fn lemma_connecting_stores(state: ConnectingState, event: Option<Event>, shared: SharedView)
    ensures
        event matches Some(Event::Command(c)) ==> stored(
            c,
            connecting_state::step(state, event, shared).1,
        ),
        connecting_state::step(state, event, shared).1.capabilities == shared.capabilities,
{
}

proof fn lemma_connected_stores(
    state: connected_state::ConnectedView,
    event: Option<Event>,
    shared: SharedView,
)
    ensures
        event matches Some(Event::Command(c)) ==> stored(
            c,
            connected_state::step(state, event, shared).1,
        ),
        connected_state::step(state, event, shared).1.capabilities == shared.capabilities,
{
}

proof fn lemma_disconnecting_stores(
    state: super::disconnecting_state::DisconnectingState,
    event: Option<Event>,
    shared: SharedView,
)
    ensures
        event matches Some(Event::Command(c)) ==> stored(
            c,
            super::disconnecting_state::step(state, event, shared).1,
        ),
        super::disconnecting_state::step(state, event, shared).1.capabilities
            == shared.capabilities,
{
}

proof fn lemma_error_stores(
    state: error_state::ErrorState,
    event: Option<Event>,
    shared: SharedView,
)
    ensures
        event matches Some(Event::Command(c)) ==> stored(
            c,
            error_state::step(state, event, shared).1,
        ),
        error_state::step(state, event, shared).1.capabilities == shared.capabilities,
{
}

/// Every state accepts every setting: after a command that carries a
/// setting, the shared values hold it, whatever the state. And the
/// capabilities of the platform never change.
pub proof fn law_settings_are_stored(
    state: TunnelStateView,
    event: Option<Event>,
    shared: SharedView,
)
    ensures
        event matches Some(Event::Command(c)) ==> stored(c, state_step(state, event, shared).1),
        state_step(state, event, shared).1.capabilities == shared.capabilities,
{
    match state {
        TunnelStateView::Disconnected(s) => {
            match event {
                Some(Event::Command(c)) => lemma_disconnected_stores(s, c, shared),
                Some(Event::Report(r)) => lemma_disconnected_keeps_capabilities(s, r, shared),
                _ => {},
            }
        },
        TunnelStateView::Connecting(s) => lemma_connecting_stores(s, event, shared),
        TunnelStateView::Connected(s) => lemma_connected_stores(s, event, shared),
        TunnelStateView::Disconnecting(s) => lemma_disconnecting_stores(s, event, shared),
        TunnelStateView::Error(s) => lemma_error_stores(s, event, shared),
    }
}

/// While the error state lasts the firewall is never loosened: a
/// dispatch that stays in the error state leaves a blocking policy whose
/// exceptions were all in force before.
pub proof fn law_error_never_loosens(
    state: error_state::ErrorState,
    event: Option<Event>,
    shared: SharedView,
)
    requires
        consistent(TunnelStateView::Error(state), shared),
    ensures
        ({
            let (consequence, after) = error_state::step(state, event, shared);
            next_state(consequence) matches Some(TunnelStateView::Error(kept)) ==> {
                &&& after.firewall == FirewallStatusView::Applied(error_state::policy(kept))
                &&& kept.allow_lan ==> state.allow_lan
                &&& kept.allowed_endpoint == state.allowed_endpoint
            }
        }),
{
}

} // verus!
