use tunnel_core::command::{
    Event, Outcome, Report, ResolverOutcomes, ResolverStep, TunnelCommand, TunnelEvent,
};
use tunnel_core::effect::{AckError, AckId, Effect};
use tunnel_core::firewall::{FirewallPolicy, FirewallStatus};
use tunnel_core::net::{DnsConfig, Endpoint, IpAddr, SocketAddr, TransportProtocol, TunnelMetadata};
use tunnel_core::shared::{Capabilities, DnsStatus};
use tunnel_core::transition::{
    ActionAfterDisconnect, ErrorStateCause, TunnelFailure, TunnelStateTransition,
};
use tunnel_core::tunnel_state_machine::connecting_state::MAX_RETRY_ATTEMPT;
use tunnel_core::tunnel_state_machine::{InitialTunnelState, TunnelStateMachine, TunnelStateWrapper};

fn no_capabilities() -> Capabilities {
    Capabilities {
        split_tunnel: false,
        custom_resolver: false,
        tun_provider: false,
        connectivity_check: false,
    }
}

fn settings(block_when_disconnected: bool) -> InitialTunnelState {
    InitialTunnelState {
        allow_lan: false,
        block_when_disconnected,
        dns_servers: None,
        allowed_endpoint: None,
        reset_firewall: false,
    }
}

fn peer() -> Endpoint {
    Endpoint {
        address: SocketAddr { ip: IpAddr::V4(0xb9d5_9a44), port: 51820 },
        protocol: TransportProtocol::Udp,
    }
}

fn metadata() -> TunnelMetadata {
    TunnelMetadata {
        interface: "wg0".to_string(),
        endpoint: peer(),
        resolvers: vec![IpAddr::V4(0x0a40_0001)],
    }
}

fn holds_exactly(list: Vec<IpAddr>, members: &[IpAddr]) -> bool {
    list.len() == members.len() && members.iter().all(|member| list.contains(member))
}

fn command(command: TunnelCommand) -> Option<Event> {
    Some(Event::Command(command))
}

fn down(failure: TunnelFailure) -> Option<Event> {
    Some(Event::Tunnel(TunnelEvent::Down(failure)))
}

fn up() -> Option<Event> {
    Some(Event::Tunnel(TunnelEvent::Up(metadata())))
}

fn dns_resets(requests: &[Effect]) -> usize {
    requests.iter().filter(|r| matches!(r, Effect::ResetDns)).count()
}

fn firewall_requests(requests: &[Effect]) -> usize {
    requests
        .iter()
        .filter(|r| matches!(r, Effect::ApplyFirewallPolicy(_) | Effect::ResetFirewallPolicy))
        .count()
}

fn connected_machine() -> TunnelStateMachine {
    let mut machine = TunnelStateMachine::new(settings(false), no_capabilities());
    machine.handle_event(command(TunnelCommand::Connect));
    machine.handle_event(Some(Event::Tunnel(TunnelEvent::Selected(peer()))));
    machine.handle_event(up());
    machine.take_requests();
    machine
}

#[test]
fn allow_lan_while_unblocked_resets_firewall_once() {
    let mut machine = TunnelStateMachine::new(settings(false), no_capabilities());
    assert!(machine.take_requests().is_empty());
    machine.handle_event(command(TunnelCommand::AllowLan(true)));
    let requests = machine.take_requests();
    assert_eq!(requests.len(), 1);
    assert!(matches!(requests[0], Effect::ResetFirewallPolicy));
    assert!(!requests.iter().any(|r| matches!(r, Effect::ApplyFirewallPolicy(_))));
    assert!(matches!(machine.shared_values().firewall, FirewallStatus::Unfiltered));
    assert!(machine.shared_values().allow_lan);
    assert!(matches!(machine.state(), Some(TunnelStateWrapper::Disconnected(_))));
}

#[test]
fn blocking_on_entry_applies_blocked_policy_with_empty_sets() {
    let mut machine = TunnelStateMachine::new(settings(true), no_capabilities());
    let requests = machine.take_requests();
    assert_eq!(requests.len(), 1);
    match &requests[0] {
        Effect::ApplyFirewallPolicy(FirewallPolicy::Blocked {
            allow_lan,
            allowed_endpoint,
            allowed_ips,
            allowed_resolvers,
        }) => {
            assert!(!*allow_lan);
            assert!(allowed_endpoint.is_none());
            assert_eq!(allowed_ips.len(), 0);
            assert_eq!(allowed_resolvers.len(), 0);
        }
        other => panic!("unexpected request {:?}", other),
    }
    assert!(matches!(
        machine.shared_values().firewall,
        FirewallStatus::Applied(FirewallPolicy::Blocked { .. })
    ));
}

#[test]
fn entry_with_reset_and_nothing_to_block_resets_the_firewall() {
    let mut start = settings(false);
    start.reset_firewall = true;
    let mut machine = TunnelStateMachine::new(start, no_capabilities());
    let requests = machine.take_requests();
    assert_eq!(requests.len(), 1);
    assert!(matches!(requests[0], Effect::ResetFirewallPolicy));
}

#[test]
fn entry_uses_every_platform_mechanism_in_order() {
    let capabilities = Capabilities {
        split_tunnel: true,
        custom_resolver: true,
        tun_provider: true,
        connectivity_check: true,
    };
    let mut start = settings(false);
    start.reset_firewall = true;
    let mut machine = TunnelStateMachine::new(start, capabilities);
    let requests = machine.take_requests();
    assert_eq!(requests.len(), 4);
    assert!(matches!(requests[0], Effect::ClearTunnelAddresses));
    assert!(matches!(requests[1], Effect::ResetFirewallPolicy));
    assert!(matches!(requests[2], Effect::ResetConnectivityCheck));
    assert!(matches!(requests[3], Effect::CloseTun));

    let mut machine = TunnelStateMachine::new(settings(true), capabilities);
    let requests = machine.take_requests();
    assert_eq!(requests.len(), 4);
    assert!(matches!(requests[0], Effect::SetTunnelAddresses(None)));
    assert!(matches!(requests[1], Effect::ApplyFirewallPolicy(FirewallPolicy::Blocked { .. })));
}

#[test]
fn connect_then_tunnel_up_widens_the_policy_in_order() {
    let mut machine = TunnelStateMachine::new(settings(true), no_capabilities());
    let on_entry = machine.take_requests();
    assert!(matches!(on_entry[0], Effect::ApplyFirewallPolicy(FirewallPolicy::Blocked { .. })));

    machine.handle_event(command(TunnelCommand::Connect));
    let connecting = machine.take_requests();
    assert_eq!(connecting.len(), 3);
    match &connecting[0] {
        Effect::ApplyFirewallPolicy(FirewallPolicy::Connecting {
            peer_endpoint,
            allow_lan,
            allowed_endpoint,
        }) => {
            assert!(peer_endpoint.is_none());
            assert!(!*allow_lan);
            assert!(allowed_endpoint.is_none());
        }
        other => panic!("unexpected request {:?}", other),
    }
    assert!(matches!(connecting[1], Effect::StartTunnel { attempt: 0 }));
    assert!(matches!(connecting[2], Effect::Notify(TunnelStateTransition::Connecting)));
    assert!(matches!(machine.state(), Some(TunnelStateWrapper::Connecting(_))));

    machine.handle_event(Some(Event::Tunnel(TunnelEvent::Selected(peer()))));
    let selected = machine.take_requests();
    assert_eq!(selected.len(), 1);
    match &selected[0] {
        Effect::ApplyFirewallPolicy(FirewallPolicy::Connecting { peer_endpoint, .. }) => {
            assert_eq!(*peer_endpoint, Some(peer()));
        }
        other => panic!("unexpected request {:?}", other),
    }

    machine.handle_event(up());
    let connected = machine.take_requests();
    assert_eq!(connected.len(), 3);
    match &connected[0] {
        Effect::ApplyFirewallPolicy(FirewallPolicy::Connected {
            peer_endpoint,
            tunnel_interface,
            allow_lan,
            allowed_endpoint,
            dns_servers,
        }) => {
            assert_eq!(*peer_endpoint, peer());
            assert_eq!(tunnel_interface, "wg0");
            assert!(!*allow_lan);
            assert!(allowed_endpoint.is_none());
            assert_eq!(dns_servers, &vec![IpAddr::V4(0x0a40_0001)]);
        }
        other => panic!("unexpected request {:?}", other),
    }
    match &connected[1] {
        Effect::SetDns(DnsConfig { interface, servers }) => {
            assert_eq!(interface, "wg0");
            assert_eq!(servers, &vec![IpAddr::V4(0x0a40_0001)]);
        }
        other => panic!("unexpected request {:?}", other),
    }
    assert!(matches!(
        connected[2],
        Effect::Notify(TunnelStateTransition::Connected(e)) if e == peer()
    ));
    assert!(matches!(machine.state(), Some(TunnelStateWrapper::Connected(_))));
}

#[test]
fn connect_from_unfiltered_goes_from_no_policy_to_connecting_to_connected() {
    let mut machine = TunnelStateMachine::new(settings(false), no_capabilities());
    assert!(matches!(machine.shared_values().firewall, FirewallStatus::Unfiltered));
    machine.handle_event(command(TunnelCommand::Connect));
    assert!(matches!(
        machine.shared_values().firewall,
        FirewallStatus::Applied(FirewallPolicy::Connecting { .. })
    ));
    machine.handle_event(up());
    assert!(matches!(
        machine.shared_values().firewall,
        FirewallStatus::Applied(FirewallPolicy::Connected { .. })
    ));
    let requests = machine.take_requests();
    let policies: Vec<&Effect> =
        requests.iter().filter(|r| matches!(r, Effect::ApplyFirewallPolicy(_))).collect();
    assert_eq!(policies.len(), 2);
    assert!(matches!(policies[0], Effect::ApplyFirewallPolicy(FirewallPolicy::Connecting { .. })));
    assert!(matches!(policies[1], Effect::ApplyFirewallPolicy(FirewallPolicy::Connected { .. })));
}

#[test]
fn tunnel_failures_beyond_the_bound_end_in_error_with_one_dns_reset() {
    let mut machine = connected_machine();
    assert!(matches!(machine.shared_values().dns, DnsStatus::Configured(_)));

    machine.handle_event(down(TunnelFailure::NetworkUnreachable));
    assert!(matches!(
        machine.state(),
        Some(TunnelStateWrapper::Connecting(state)) if state.retry_attempt == 0
    ));
    for attempt in 0..MAX_RETRY_ATTEMPT {
        machine.handle_event(down(TunnelFailure::NetworkUnreachable));
        assert!(matches!(
            machine.state(),
            Some(TunnelStateWrapper::Connecting(state)) if state.retry_attempt == attempt + 1
        ));
    }
    machine.handle_event(down(TunnelFailure::DeviceFailed));
    match machine.state() {
        Some(TunnelStateWrapper::Error(state)) => {
            assert_eq!(state.cause, ErrorStateCause::TunnelFailure(TunnelFailure::DeviceFailed));
        }
        _ => panic!("not in the error state"),
    }

    let requests = machine.take_requests();
    assert_eq!(dns_resets(&requests), 1);
    let reset_at = requests.iter().position(|r| matches!(r, Effect::ResetDns)).unwrap();
    let error_at = requests
        .iter()
        .position(|r| matches!(r, Effect::Notify(TunnelStateTransition::Error(_))))
        .unwrap();
    assert!(reset_at < error_at);
    assert!(matches!(machine.shared_values().dns, DnsStatus::System));
    assert!(matches!(
        requests.last(),
        Some(Effect::Notify(TunnelStateTransition::Error(ErrorStateCause::TunnelFailure(
            TunnelFailure::DeviceFailed
        ))))
    ));
}

#[test]
fn connect_leaves_error_and_blocked_policy_stays_until_connecting_applies_its_own() {
    let mut machine = TunnelStateMachine::new(settings(false), no_capabilities());
    machine.handle_event(command(TunnelCommand::Block(ErrorStateCause::IsOffline)));
    assert!(matches!(machine.state(), Some(TunnelStateWrapper::Error(_))));
    assert!(matches!(
        machine.shared_values().firewall,
        FirewallStatus::Applied(FirewallPolicy::Blocked { .. })
    ));
    machine.take_requests();

    machine.handle_event(command(TunnelCommand::Connect));
    assert!(matches!(machine.state(), Some(TunnelStateWrapper::Connecting(_))));
    let requests = machine.take_requests();
    assert_eq!(firewall_requests(&requests), 1);
    assert!(matches!(
        requests[0],
        Effect::ApplyFirewallPolicy(FirewallPolicy::Connecting { .. })
    ));
    assert!(!requests.iter().any(|r| matches!(r, Effect::ResetFirewallPolicy)));
}

#[test]
fn block_from_disconnected_resets_dns_then_enters_error() {
    let mut machine = TunnelStateMachine::new(settings(false), no_capabilities());
    machine.handle_event(command(TunnelCommand::Block(ErrorStateCause::TunnelParameterError)));
    let requests = machine.take_requests();
    assert_eq!(requests.len(), 3);
    assert!(matches!(requests[0], Effect::ResetDns));
    assert!(matches!(requests[1], Effect::ApplyFirewallPolicy(FirewallPolicy::Blocked { .. })));
    assert!(matches!(
        requests[2],
        Effect::Notify(TunnelStateTransition::Error(ErrorStateCause::TunnelParameterError))
    ));
}

#[test]
fn repeated_allow_lan_changes_the_firewall_at_most_once() {
    for block in [false, true] {
        let mut machine = TunnelStateMachine::new(settings(block), no_capabilities());
        machine.take_requests();
        for _ in 0..5 {
            machine.handle_event(command(TunnelCommand::AllowLan(true)));
        }
        let requests = machine.take_requests();
        assert_eq!(firewall_requests(&requests), 1);
        assert_eq!(requests.len(), 1);
    }
    let mut machine = connected_machine();
    for _ in 0..5 {
        machine.handle_event(command(TunnelCommand::AllowLan(true)));
    }
    assert_eq!(firewall_requests(&machine.take_requests()), 1);
    for _ in 0..3 {
        machine.handle_event(command(TunnelCommand::AllowLan(true)));
    }
    assert_eq!(firewall_requests(&machine.take_requests()), 0);
}

#[test]
fn closing_the_source_resets_dns_once_and_stops_from_every_state() {
    let mut disconnected = TunnelStateMachine::new(settings(true), no_capabilities());
    let mut connecting = TunnelStateMachine::new(settings(false), no_capabilities());
    connecting.handle_event(command(TunnelCommand::Connect));
    let connected = connected_machine();
    let mut disconnecting = connected_machine();
    disconnecting.handle_event(command(TunnelCommand::Disconnect));
    let mut error = TunnelStateMachine::new(settings(false), no_capabilities());
    error.handle_event(command(TunnelCommand::Block(ErrorStateCause::AuthFailed)));
    disconnected.take_requests();

    for mut machine in [disconnected, connecting, connected, disconnecting, error] {
        machine.take_requests();
        assert!(!machine.is_finished());
        machine.handle_event(None);
        assert!(machine.is_finished());
        assert!(machine.state().is_none());
        let requests = machine.take_requests();
        assert_eq!(dns_resets(&requests), 1);
        assert_eq!(firewall_requests(&requests), 0);
        assert!(matches!(requests.last(), Some(Effect::ResetDns)));

        machine.handle_event(command(TunnelCommand::Connect));
        assert!(machine.is_finished());
        assert!(machine.take_requests().is_empty());
    }
}

#[test]
fn teardown_resets_dns_once_and_the_firewall_on_arrival() {
    let mut machine = connected_machine();
    machine.handle_event(command(TunnelCommand::Disconnect));
    match machine.state() {
        Some(TunnelStateWrapper::Disconnecting(state)) => {
            assert_eq!(state.after_disconnect, ActionAfterDisconnect::Nothing);
        }
        _ => panic!("not disconnecting"),
    }
    let stopping = machine.take_requests();
    assert_eq!(stopping.len(), 3);
    assert!(matches!(stopping[0], Effect::ResetDns));
    assert!(matches!(stopping[1], Effect::StopTunnel));
    assert!(matches!(
        stopping[2],
        Effect::Notify(TunnelStateTransition::Disconnecting(ActionAfterDisconnect::Nothing))
    ));
    assert!(matches!(
        machine.shared_values().firewall,
        FirewallStatus::Applied(FirewallPolicy::Connected { .. })
    ));

    machine.handle_event(down(TunnelFailure::Closed));
    assert!(matches!(machine.state(), Some(TunnelStateWrapper::Disconnected(_))));
    let stopped = machine.take_requests();
    assert_eq!(dns_resets(&stopped), 0);
    assert_eq!(stopped.len(), 2);
    assert!(matches!(stopped[0], Effect::ResetFirewallPolicy));
    assert!(matches!(stopped[1], Effect::Notify(TunnelStateTransition::Disconnected)));
    assert!(matches!(machine.shared_values().firewall, FirewallStatus::Unfiltered));
}

#[test]
fn disconnecting_follows_the_last_wish() {
    let mut machine = connected_machine();
    machine.handle_event(command(TunnelCommand::Disconnect));
    machine.handle_event(command(TunnelCommand::Connect));
    machine.handle_event(down(TunnelFailure::Closed));
    assert!(matches!(
        machine.state(),
        Some(TunnelStateWrapper::Connecting(state)) if state.retry_attempt == 0
    ));

    let mut machine = connected_machine();
    machine.handle_event(command(TunnelCommand::Disconnect));
    machine.handle_event(command(TunnelCommand::Block(ErrorStateCause::IsOffline)));
    machine.handle_event(command(TunnelCommand::AllowLan(true)));
    machine.take_requests();
    machine.handle_event(down(TunnelFailure::Closed));
    match machine.state() {
        Some(TunnelStateWrapper::Error(state)) => {
            assert_eq!(state.cause, ErrorStateCause::IsOffline);
            assert!(state.allow_lan);
        }
        _ => panic!("not in the error state"),
    }
}

#[test]
fn failed_authentication_is_not_retried() {
    let mut machine = TunnelStateMachine::new(settings(false), no_capabilities());
    machine.handle_event(command(TunnelCommand::Connect));
    machine.handle_event(down(TunnelFailure::AuthFailed));
    match machine.state() {
        Some(TunnelStateWrapper::Error(state)) => {
            assert_eq!(state.cause, ErrorStateCause::AuthFailed)
        }
        _ => panic!("not in the error state"),
    }
    let mut machine = connected_machine();
    machine.handle_event(down(TunnelFailure::AuthFailed));
    assert!(matches!(machine.state(), Some(TunnelStateWrapper::Error(_))));
    assert_eq!(dns_resets(&machine.take_requests()), 1);
}

#[test]
fn rejected_requests_while_a_tunnel_exists_lead_to_error() {
    let mut machine = TunnelStateMachine::new(settings(false), no_capabilities());
    machine.handle_event(command(TunnelCommand::Connect));
    machine.take_requests();
    machine.handle_event(Some(Event::Report(Report::Firewall(false))));
    match machine.state() {
        Some(TunnelStateWrapper::Error(state)) => {
            assert_eq!(state.cause, ErrorStateCause::SetFirewallPolicyError)
        }
        _ => panic!("not in the error state"),
    }
    assert!(matches!(machine.take_requests()[0], Effect::StopTunnel));

    let mut machine = connected_machine();
    machine.handle_event(down(TunnelFailure::Closed));
    machine.take_requests();
    machine.handle_event(Some(Event::Report(Report::Dns(false))));
    match machine.state() {
        Some(TunnelStateWrapper::Error(state)) => {
            assert_eq!(state.cause, ErrorStateCause::SetDnsError)
        }
        _ => panic!("not in the error state"),
    }

    let mut machine = connected_machine();
    machine.handle_event(command(TunnelCommand::Disconnect));
    machine.handle_event(Some(Event::Report(Report::Dns(false))));
    match machine.state() {
        Some(TunnelStateWrapper::Disconnecting(state)) => assert_eq!(
            state.after_disconnect,
            ActionAfterDisconnect::Block(ErrorStateCause::SetDnsError)
        ),
        _ => panic!("not disconnecting"),
    }
    machine.handle_event(down(TunnelFailure::Closed));
    assert!(matches!(machine.state(), Some(TunnelStateWrapper::Error(_))));

    for (report, cause) in [
        (Report::Firewall(false), ErrorStateCause::SetFirewallPolicyError),
        (Report::Dns(false), ErrorStateCause::SetDnsError),
        (Report::SplitTunnel(false), ErrorStateCause::SplitTunnelError),
    ] {
        let mut machine = connected_machine();
        machine.handle_event(Some(Event::Report(report)));
        match machine.state() {
            Some(TunnelStateWrapper::Error(state)) => assert_eq!(state.cause, cause),
            _ => panic!("not in the error state"),
        }
        let requests = machine.take_requests();
        assert!(matches!(requests[0], Effect::ResetDns));
        assert!(matches!(requests[1], Effect::StopTunnel));
        assert!(matches!(requests[2], Effect::ApplyFirewallPolicy(FirewallPolicy::Blocked { .. })));
    }

    let mut machine = connected_machine();
    machine.handle_event(Some(Event::Report(Report::Firewall(true))));
    assert!(matches!(machine.state(), Some(TunnelStateWrapper::Connected(_))));
    assert!(machine.take_requests().is_empty());
}

#[test]
fn rejected_requests_while_disconnected_change_nothing() {
    let mut machine = TunnelStateMachine::new(settings(true), no_capabilities());
    machine.take_requests();
    for report in [Report::Firewall(false), Report::Dns(false), Report::SplitTunnel(false)] {
        machine.handle_event(Some(Event::Report(report)));
        assert!(matches!(machine.state(), Some(TunnelStateWrapper::Disconnected(_))));
        assert!(machine.take_requests().is_empty());
    }
}

#[test]
fn error_state_stores_settings_and_never_loosens() {
    let mut machine = TunnelStateMachine::new(settings(false), no_capabilities());
    machine.handle_event(command(TunnelCommand::Block(ErrorStateCause::AuthFailed)));
    machine.take_requests();

    machine.handle_event(command(TunnelCommand::AllowLan(true)));
    machine.handle_event(command(TunnelCommand::AllowEndpoint(peer(), AckId(7))));
    machine.handle_event(command(TunnelCommand::BlockWhenDisconnected(true)));
    machine.handle_event(command(TunnelCommand::Dns(Some(vec![IpAddr::V4(1)]))));
    machine.handle_event(command(TunnelCommand::IsOffline(true)));
    let requests = machine.take_requests();
    assert_eq!(firewall_requests(&requests), 0);
    assert_eq!(requests.len(), 1);
    assert!(matches!(requests[0], Effect::Acknowledge { ack: AckId(7), result: Ok(()) }));
    assert!(machine.shared_values().allow_lan);
    assert_eq!(machine.shared_values().allowed_endpoint, Some(peer()));
    assert!(machine.shared_values().block_when_disconnected);
    assert!(machine.shared_values().is_offline);
    match &machine.shared_values().firewall {
        FirewallStatus::Applied(FirewallPolicy::Blocked { allow_lan, allowed_endpoint, .. }) => {
            assert!(!*allow_lan);
            assert!(allowed_endpoint.is_none());
        }
        _ => panic!("not blocked"),
    }
    match machine.state() {
        Some(TunnelStateWrapper::Error(state)) => {
            assert!(!state.allow_lan);
            assert!(state.allowed_endpoint.is_none());
        }
        _ => panic!("not in the error state"),
    }
}

#[test]
fn error_state_tightens_when_lan_is_forbidden() {
    let mut start = settings(false);
    start.allow_lan = true;
    let mut machine = TunnelStateMachine::new(start, no_capabilities());
    machine.handle_event(command(TunnelCommand::Block(ErrorStateCause::AuthFailed)));
    machine.take_requests();
    machine.handle_event(command(TunnelCommand::AllowLan(false)));
    let requests = machine.take_requests();
    assert_eq!(requests.len(), 1);
    match &requests[0] {
        Effect::ApplyFirewallPolicy(FirewallPolicy::Blocked { allow_lan, .. }) => {
            assert!(!*allow_lan)
        }
        other => panic!("unexpected request {:?}", other),
    }
    machine.handle_event(command(TunnelCommand::AllowLan(true)));
    assert!(machine.take_requests().is_empty());
}

#[test]
fn error_state_is_left_by_disconnect_with_a_firewall_reset() {
    let mut machine = TunnelStateMachine::new(settings(false), no_capabilities());
    machine.handle_event(command(TunnelCommand::Block(ErrorStateCause::AuthFailed)));
    machine.take_requests();
    machine.handle_event(command(TunnelCommand::Block(ErrorStateCause::IsOffline)));
    let requests = machine.take_requests();
    assert_eq!(requests.len(), 1);
    assert!(matches!(
        requests[0],
        Effect::Notify(TunnelStateTransition::Error(ErrorStateCause::IsOffline))
    ));
    machine.handle_event(command(TunnelCommand::Disconnect));
    assert!(matches!(machine.state(), Some(TunnelStateWrapper::Disconnected(_))));
    let requests = machine.take_requests();
    assert!(matches!(requests[0], Effect::ResetFirewallPolicy));
    assert!(matches!(machine.shared_values().firewall, FirewallStatus::Unfiltered));
}

#[test]
fn settings_commands_while_disconnected_and_blocking() {
    let mut machine = TunnelStateMachine::new(settings(true), no_capabilities());
    machine.take_requests();

    machine.handle_event(command(TunnelCommand::AllowEndpoint(peer(), AckId(1))));
    let requests = machine.take_requests();
    assert_eq!(requests.len(), 2);
    match &requests[0] {
        Effect::ApplyFirewallPolicy(FirewallPolicy::Blocked { allowed_endpoint, .. }) => {
            assert_eq!(*allowed_endpoint, Some(peer()))
        }
        other => panic!("unexpected request {:?}", other),
    }
    assert!(matches!(requests[1], Effect::Acknowledge { ack: AckId(1), result: Ok(()) }));

    machine.handle_event(command(TunnelCommand::AllowEndpoint(peer(), AckId(2))));
    let requests = machine.take_requests();
    assert_eq!(requests.len(), 1);
    assert!(matches!(requests[0], Effect::Acknowledge { ack: AckId(2), result: Ok(()) }));

    machine.handle_event(command(TunnelCommand::Dns(Some(vec![IpAddr::V4(9), IpAddr::V6(3)]))));
    let requests = machine.take_requests();
    assert_eq!(requests.len(), 1);
    match &requests[0] {
        Effect::SetDns(config) => {
            assert_eq!(config.interface, "lo0");
            assert_eq!(config.servers, vec![IpAddr::V4(9), IpAddr::V6(3)]);
        }
        other => panic!("unexpected request {:?}", other),
    }
    machine.handle_event(command(TunnelCommand::Dns(None)));
    assert!(machine.take_requests().is_empty());

    machine.handle_event(command(TunnelCommand::IsOffline(true)));
    assert!(machine.take_requests().is_empty());
    assert!(machine.shared_values().is_offline);

    machine.handle_event(command(TunnelCommand::Disconnect));
    assert!(machine.take_requests().is_empty());

    machine.handle_event(command(TunnelCommand::BlockWhenDisconnected(false)));
    let requests = machine.take_requests();
    assert_eq!(requests.len(), 2);
    assert!(matches!(requests[0], Effect::ResetDns));
    assert!(matches!(requests[1], Effect::ResetFirewallPolicy));

    machine.handle_event(command(TunnelCommand::Dns(Some(vec![IpAddr::V4(9)]))));
    machine.take_requests();
    machine.handle_event(command(TunnelCommand::BlockWhenDisconnected(true)));
    let requests = machine.take_requests();
    assert_eq!(requests.len(), 2);
    assert!(matches!(requests[0], Effect::SetDns(_)));
    assert!(matches!(requests[1], Effect::ApplyFirewallPolicy(FirewallPolicy::Blocked { .. })));
    machine.handle_event(command(TunnelCommand::BlockWhenDisconnected(true)));
    assert!(machine.take_requests().is_empty());
}

#[test]
fn split_tunnel_is_told_when_blocking_changes() {
    let mut capabilities = no_capabilities();
    capabilities.split_tunnel = true;
    let mut machine = TunnelStateMachine::new(settings(false), capabilities);
    machine.take_requests();
    machine.handle_event(command(TunnelCommand::BlockWhenDisconnected(true)));
    let requests = machine.take_requests();
    assert_eq!(requests.len(), 2);
    assert!(matches!(requests[0], Effect::SetTunnelAddresses(None)));
    machine.handle_event(command(TunnelCommand::BlockWhenDisconnected(false)));
    let requests = machine.take_requests();
    assert_eq!(requests.len(), 3);
    assert!(matches!(requests[0], Effect::ClearTunnelAddresses));
    assert!(matches!(requests[1], Effect::ResetDns));
    assert!(matches!(requests[2], Effect::ResetFirewallPolicy));

    machine.handle_event(command(TunnelCommand::SetExcludedApps(
        AckId(5),
        vec!["/usr/bin/curl".to_string()],
    )));
    let requests = machine.take_requests();
    assert_eq!(requests.len(), 1);
    match &requests[0] {
        Effect::SetExcludedPaths { paths, ack } => {
            assert_eq!(paths, &vec!["/usr/bin/curl".to_string()]);
            assert_eq!(*ack, AckId(5));
        }
        other => panic!("unexpected request {:?}", other),
    }
    machine.handle_event(command(TunnelCommand::Connect));
    machine.handle_event(up());
    let requests = machine.take_requests();
    assert!(requests.iter().any(|r| matches!(r, Effect::SetTunnelAddresses(Some(_)))));
}

#[test]
fn commands_for_absent_mechanisms_are_answered_as_unavailable() {
    let mut machine = TunnelStateMachine::new(settings(true), no_capabilities());
    machine.take_requests();
    machine.handle_event(command(TunnelCommand::BypassSocket(3, AckId(1))));
    machine.handle_event(command(TunnelCommand::SetExcludedApps(AckId(2), vec![])));
    machine.handle_event(command(TunnelCommand::SetCustomResolver(
        true,
        AckId(3),
        ResolverOutcomes::new(),
    )));
    machine.handle_event(command(TunnelCommand::AddAllowedIps(vec![IpAddr::V4(1)], AckId(4))));
    machine.handle_event(command(TunnelCommand::HostDnsConfig(None)));
    let requests = machine.take_requests();
    assert_eq!(requests.len(), 4);
    for (i, request) in requests.iter().enumerate() {
        match request {
            Effect::Acknowledge { ack, result } => {
                assert_eq!(*ack, AckId(i as u64 + 1));
                assert_eq!(*result, Err(AckError::Unavailable));
            }
            other => panic!("unexpected request {:?}", other),
        }
    }

    let mut capabilities = no_capabilities();
    capabilities.tun_provider = true;
    let mut machine = TunnelStateMachine::new(settings(false), capabilities);
    machine.take_requests();
    machine.handle_event(command(TunnelCommand::BypassSocket(3, AckId(1))));
    assert!(matches!(
        machine.take_requests()[0],
        Effect::BypassSocket { fd: 3, ack: AckId(1) }
    ));
    machine.handle_event(command(TunnelCommand::Connect));
    machine.take_requests();
    machine.handle_event(command(TunnelCommand::BypassSocket(4, AckId(2))));
    machine.handle_event(command(TunnelCommand::AddAllowedIps(vec![], AckId(3))));
    let requests = machine.take_requests();
    assert!(matches!(requests[0], Effect::BypassSocket { fd: 4, ack: AckId(2) }));
    assert!(matches!(
        requests[1],
        Effect::Acknowledge { ack: AckId(3), result: Err(AckError::Unavailable) }
    ));
}

fn resolver_capabilities() -> Capabilities {
    let mut capabilities = no_capabilities();
    capabilities.custom_resolver = true;
    capabilities
}

fn host_dns() -> Option<DnsConfig> {
    Some(DnsConfig {
        interface: "en0".to_string(),
        servers: vec![IpAddr::V4(0x0101_0101), IpAddr::V4(0x0808_0808), IpAddr::V4(0x0101_0101)],
    })
}

#[test]
fn added_ips_are_all_allowed_and_the_policy_is_requested_once() {
    let first = IpAddr::V4(0x0a00_0001);
    let second = IpAddr::V4(0x0a00_0002);
    let mut machine = TunnelStateMachine::new(settings(true), resolver_capabilities());
    machine.take_requests();
    machine.handle_event(command(TunnelCommand::AddAllowedIps(vec![first, second], AckId(1))));
    match machine.state() {
        Some(TunnelStateWrapper::Disconnected(state)) => {
            assert!(holds_exactly(state.allowed_ips(), &[first, second]));
        }
        _ => panic!("not disconnected"),
    }
    let requests = machine.take_requests();
    assert_eq!(requests.len(), 2);
    assert_eq!(firewall_requests(&requests), 1);
    match &requests[0] {
        Effect::ApplyFirewallPolicy(FirewallPolicy::Blocked { allowed_ips, .. }) => {
            assert!(holds_exactly(allowed_ips.to_vec(), &[first, second]));
        }
        other => panic!("unexpected request {:?}", other),
    }
    assert!(matches!(requests[1], Effect::Acknowledge { ack: AckId(1), result: Ok(()) }));

    machine.handle_event(command(TunnelCommand::AddAllowedIps(
        vec![first, IpAddr::V4(3), second, IpAddr::V4(3), IpAddr::V6(4)],
        AckId(2),
    )));
    match machine.state() {
        Some(TunnelStateWrapper::Disconnected(state)) => {
            assert!(holds_exactly(
                state.allowed_ips(),
                &[first, second, IpAddr::V4(3), IpAddr::V6(4)]
            ));
        }
        _ => panic!("not disconnected"),
    }
    let requests = machine.take_requests();
    assert_eq!(requests.len(), 2);
    match &requests[0] {
        Effect::ApplyFirewallPolicy(FirewallPolicy::Blocked { allowed_ips, .. }) => {
            assert_eq!(allowed_ips.len(), 4);
        }
        other => panic!("unexpected request {:?}", other),
    }

    machine.handle_event(command(TunnelCommand::AddAllowedIps(vec![second, first], AckId(3))));
    machine.handle_event(command(TunnelCommand::AddAllowedIps(vec![], AckId(4))));
    let requests = machine.take_requests();
    assert_eq!(requests.len(), 2);
    assert!(matches!(requests[0], Effect::Acknowledge { ack: AckId(3), result: Ok(()) }));
    assert!(matches!(requests[1], Effect::Acknowledge { ack: AckId(4), result: Ok(()) }));
}

#[test]
fn added_ips_without_blocking_leave_the_firewall_alone() {
    let mut machine = TunnelStateMachine::new(settings(false), resolver_capabilities());
    machine.take_requests();
    machine.handle_event(command(TunnelCommand::AddAllowedIps(vec![IpAddr::V4(1)], AckId(1))));
    let requests = machine.take_requests();
    assert_eq!(requests.len(), 1);
    assert!(matches!(requests[0], Effect::Acknowledge { ack: AckId(1), result: Ok(()) }));
    assert!(matches!(machine.shared_values().firewall, FirewallStatus::Unfiltered));
}

/// Prepares and hands in a switch of the local resolver as a driver does:
/// every inquiry of the machine is answered by `answer`, then the command
/// takes its turn. The result lists the inquiries that were made.
fn switch_resolver(
    machine: &mut TunnelStateMachine,
    enable: bool,
    ack: AckId,
    mut answer: impl FnMut(ResolverStep) -> Outcome,
) -> Vec<(ResolverStep, Effect)> {
    let mut outcomes = ResolverOutcomes::new();
    let mut inquiries = Vec::new();
    while let Some((step, request)) = machine.resolver_inquiry(enable, &outcomes) {
        outcomes.note(step, answer(step));
        inquiries.push((step, request));
        assert!(inquiries.len() <= 5);
    }
    machine.handle_event(command(TunnelCommand::SetCustomResolver(enable, ack, outcomes)));
    inquiries
}

fn all_goes_well(step: ResolverStep) -> Outcome {
    match step {
        ResolverStep::ReadSystemDns => Outcome::SystemDns(host_dns()),
        _ => Outcome::Done,
    }
}

fn answers_on(requests: &[Effect], ack: AckId) -> Vec<Result<(), AckError>> {
    requests
        .iter()
        .filter_map(|r| match r {
            Effect::Acknowledge { ack: a, result } if *a == ack => Some(*result),
            _ => None,
        })
        .collect()
}

#[test]
fn host_dns_config_replaces_the_allowed_resolvers() {
    let mut machine = TunnelStateMachine::new(settings(true), resolver_capabilities());
    machine.handle_event(command(TunnelCommand::HostDnsConfig(host_dns())));
    machine.take_requests();
    assert!(!machine.shared_values().enable_custom_resolver);

    switch_resolver(&mut machine, true, AckId(1), all_goes_well);
    machine.take_requests();
    machine.handle_event(command(TunnelCommand::HostDnsConfig(Some(DnsConfig {
        interface: "en1".to_string(),
        servers: vec![IpAddr::V4(0x0909_0909)],
    }))));
    let requests = machine.take_requests();
    assert_eq!(requests.len(), 2);
    match &requests[0] {
        Effect::ApplyFirewallPolicy(FirewallPolicy::Blocked { allowed_resolvers, .. }) => {
            assert!(holds_exactly(allowed_resolvers.to_vec(), &[IpAddr::V4(0x0909_0909)]));
        }
        other => panic!("unexpected request {:?}", other),
    }
    match &requests[1] {
        Effect::SetCustomResolver(Some(config)) => assert_eq!(config.interface, "en1"),
        other => panic!("unexpected request {:?}", other),
    }

    machine.handle_event(Some(Event::Report(Report::CustomResolver(true))));
    assert!(matches!(machine.state(), Some(TunnelStateWrapper::Disconnected(_))));
    machine.handle_event(command(TunnelCommand::HostDnsConfig(None)));
    match machine.state() {
        Some(TunnelStateWrapper::Disconnected(state)) => {
            assert!(state.allowed_resolvers().is_empty())
        }
        _ => panic!("not disconnected"),
    }
    machine.take_requests();
    machine.handle_event(Some(Event::Report(Report::CustomResolver(false))));
    match machine.state() {
        Some(TunnelStateWrapper::Error(state)) => {
            assert_eq!(state.cause, ErrorStateCause::CustomResolverError)
        }
        _ => panic!("not in the error state"),
    }
}

#[test]
fn switching_the_resolver_on_is_answered_in_its_turn() {
    let mut machine = TunnelStateMachine::new(settings(true), resolver_capabilities());
    machine.take_requests();

    let inquiries = switch_resolver(&mut machine, true, AckId(9), all_goes_well);
    let steps: Vec<ResolverStep> = inquiries.iter().map(|(step, _)| *step).collect();
    assert_eq!(
        steps,
        vec![
            ResolverStep::ReadSystemDns,
            ResolverStep::AllowResolvers,
            ResolverStep::Activate,
            ResolverStep::Redirect,
        ]
    );
    assert!(matches!(inquiries[0].1, Effect::QuerySystemDns));
    match &inquiries[1].1 {
        Effect::ApplyFirewallPolicy(FirewallPolicy::Blocked { allowed_resolvers, .. }) => {
            assert!(holds_exactly(
                allowed_resolvers.to_vec(),
                &[IpAddr::V4(0x0101_0101), IpAddr::V4(0x0808_0808)]
            ));
        }
        other => panic!("unexpected request {:?}", other),
    }
    match &inquiries[2].1 {
        Effect::SetCustomResolver(Some(config)) => assert_eq!(config.interface, "en0"),
        other => panic!("unexpected request {:?}", other),
    }
    match &inquiries[3].1 {
        Effect::SetDns(config) => {
            assert_eq!(config.interface, "lo");
            assert_eq!(config.servers, vec![IpAddr::V4(0x7f00_0001)]);
        }
        other => panic!("unexpected request {:?}", other),
    }

    let requests = machine.take_requests();
    assert_eq!(requests.len(), 1);
    assert_eq!(answers_on(&requests, AckId(9)), vec![Ok(())]);
    assert!(machine.shared_values().enable_custom_resolver);
    match machine.state() {
        Some(TunnelStateWrapper::Disconnected(state)) => assert!(holds_exactly(
            state.allowed_resolvers(),
            &[IpAddr::V4(0x0101_0101), IpAddr::V4(0x0808_0808)]
        )),
        _ => panic!("not disconnected"),
    }
    match &machine.shared_values().firewall {
        FirewallStatus::Applied(FirewallPolicy::Blocked { allowed_resolvers, .. }) => {
            assert_eq!(allowed_resolvers.len(), 2)
        }
        _ => panic!("not blocked"),
    }
    match &machine.shared_values().dns {
        DnsStatus::Configured(config) => assert_eq!(config.interface, "lo"),
        _ => panic!("the system is not pointed at the resolver"),
    }
}

#[test]
fn every_failure_of_a_resolver_switch_is_answered_in_its_turn() {
    let mut machine = TunnelStateMachine::new(settings(true), resolver_capabilities());
    machine.take_requests();

    let inquiries = switch_resolver(&mut machine, true, AckId(1), |_| Outcome::Failed);
    assert_eq!(inquiries.len(), 1);
    assert_eq!(
        answers_on(&machine.take_requests(), AckId(1)),
        vec![Err(AckError::SystemDns)]
    );

    let inquiries = switch_resolver(&mut machine, true, AckId(2), |step| match step {
        ResolverStep::ReadSystemDns => Outcome::SystemDns(None),
        ResolverStep::Activate => Outcome::Failed,
        _ => Outcome::Done,
    });
    assert_eq!(inquiries.len(), 3);
    assert!(matches!(inquiries[2].1, Effect::SetCustomResolver(None)));
    let requests = machine.take_requests();
    assert_eq!(requests.len(), 1);
    assert_eq!(answers_on(&requests, AckId(2)), vec![Err(AckError::CustomResolver)]);
    assert!(matches!(machine.state(), Some(TunnelStateWrapper::Disconnected(_))));

    let inquiries = switch_resolver(&mut machine, true, AckId(3), |step| match step {
        ResolverStep::ReadSystemDns => Outcome::SystemDns(host_dns()),
        ResolverStep::AllowResolvers | ResolverStep::Redirect => Outcome::Failed,
        _ => Outcome::Done,
    });
    assert_eq!(inquiries.len(), 4);
    let requests = machine.take_requests();
    assert_eq!(answers_on(&requests, AckId(3)), vec![Err(AckError::SetDns)]);
    assert_eq!(requests.len(), 3);
    assert!(matches!(requests[0], Effect::Acknowledge { .. }));
    assert!(matches!(requests[1], Effect::ApplyFirewallPolicy(FirewallPolicy::Blocked { .. })));
    assert!(matches!(
        requests[2],
        Effect::Notify(TunnelStateTransition::Error(ErrorStateCause::SetDnsError))
    ));
    match machine.state() {
        Some(TunnelStateWrapper::Error(state)) => {
            assert_eq!(state.cause, ErrorStateCause::SetDnsError)
        }
        _ => panic!("not in the error state"),
    }
}

#[test]
fn a_switch_that_was_not_prepared_is_answered_as_failed() {
    let mut machine = TunnelStateMachine::new(settings(true), resolver_capabilities());
    machine.take_requests();
    machine.handle_event(command(TunnelCommand::SetCustomResolver(
        true,
        AckId(1),
        ResolverOutcomes::new(),
    )));
    machine.handle_event(command(TunnelCommand::SetCustomResolver(
        false,
        AckId(2),
        ResolverOutcomes::new(),
    )));
    let requests = machine.take_requests();
    assert_eq!(requests.len(), 2);
    assert_eq!(answers_on(&requests, AckId(1)), vec![Err(AckError::SystemDns)]);
    assert_eq!(answers_on(&requests, AckId(2)), vec![Err(AckError::CustomResolver)]);

    let mut outcomes = ResolverOutcomes::new();
    outcomes.note(ResolverStep::ReadSystemDns, Outcome::SystemDns(host_dns()));
    outcomes.note(ResolverStep::Activate, Outcome::Done);
    outcomes.note(ResolverStep::Redirect, Outcome::Done);
    machine.handle_event(command(TunnelCommand::SetCustomResolver(true, AckId(3), outcomes)));
    let requests = machine.take_requests();
    assert_eq!(requests.len(), 2);
    assert!(matches!(requests[0], Effect::ApplyFirewallPolicy(FirewallPolicy::Blocked { .. })));
    assert_eq!(answers_on(&requests, AckId(3)), vec![Ok(())]);
}

#[test]
fn switching_the_resolver_off_is_answered_in_its_turn() {
    let mut machine = TunnelStateMachine::new(settings(false), resolver_capabilities());
    machine.take_requests();
    let inquiries = switch_resolver(&mut machine, true, AckId(1), all_goes_well);
    assert!(inquiries.is_empty());
    let requests = machine.take_requests();
    assert_eq!(requests.len(), 1);
    assert_eq!(answers_on(&requests, AckId(1)), vec![Ok(())]);
    assert!(machine.shared_values().enable_custom_resolver);

    let inquiries = switch_resolver(&mut machine, false, AckId(2), all_goes_well);
    assert_eq!(inquiries.len(), 1);
    assert_eq!(inquiries[0].0, ResolverStep::Deactivate);
    assert!(matches!(inquiries[0].1, Effect::SetCustomResolver(None)));
    let requests = machine.take_requests();
    assert_eq!(requests.len(), 1);
    assert_eq!(answers_on(&requests, AckId(2)), vec![Ok(())]);
    assert!(!machine.shared_values().enable_custom_resolver);

    switch_resolver(&mut machine, false, AckId(3), |_| Outcome::Failed);
    let requests = machine.take_requests();
    assert_eq!(requests.len(), 1);
    assert_eq!(answers_on(&requests, AckId(3)), vec![Err(AckError::CustomResolver)]);

    machine.handle_event(command(TunnelCommand::Connect));
    machine.take_requests();
    let inquiries = switch_resolver(&mut machine, false, AckId(4), all_goes_well);
    assert!(inquiries.is_empty());
    assert_eq!(answers_on(&machine.take_requests(), AckId(4)), vec![Ok(())]);

    let mut machine = TunnelStateMachine::new(settings(true), no_capabilities());
    machine.take_requests();
    let inquiries = switch_resolver(&mut machine, true, AckId(5), all_goes_well);
    assert!(inquiries.is_empty());
    assert_eq!(
        answers_on(&machine.take_requests(), AckId(5)),
        vec![Err(AckError::Unavailable)]
    );
}

#[test]
fn outcomes_are_noted_step_by_step() {
    let mut outcomes = ResolverOutcomes::new();
    assert!(outcomes.deactivated.is_none() && outcomes.system_dns.is_none());
    assert!(outcomes.filtered.is_none() && outcomes.activated.is_none());
    assert!(outcomes.redirected.is_none());
    outcomes.note(ResolverStep::Deactivate, Outcome::Done);
    outcomes.note(ResolverStep::AllowResolvers, Outcome::Failed);
    outcomes.note(ResolverStep::Activate, Outcome::SystemDns(None));
    outcomes.note(ResolverStep::Redirect, Outcome::Done);
    outcomes.note(ResolverStep::ReadSystemDns, Outcome::Done);
    assert_eq!(outcomes.deactivated, Some(true));
    assert_eq!(outcomes.filtered, Some(false));
    assert_eq!(outcomes.activated, Some(false));
    assert_eq!(outcomes.redirected, Some(true));
    assert!(matches!(
        outcomes.system_dns,
        Some(tunnel_core::command::SystemDnsRead::Unreadable)
    ));
    outcomes.note(ResolverStep::ReadSystemDns, Outcome::SystemDns(host_dns()));
    assert!(matches!(
        outcomes.system_dns,
        Some(tunnel_core::command::SystemDnsRead::Read(Some(_)))
    ));
}

#[test]
fn entry_points_the_system_at_the_resolver_when_it_is_on() {
    let mut machine = TunnelStateMachine::new(settings(false), resolver_capabilities());
    machine.handle_event(command(TunnelCommand::Connect));
    machine.handle_event(command(TunnelCommand::SetCustomResolver(
        true,
        AckId(1),
        ResolverOutcomes::new(),
    )));
    let requests = machine.take_requests();
    assert!(matches!(
        requests.last(),
        Some(Effect::Acknowledge { ack: AckId(1), result: Ok(()) })
    ));
    machine.handle_event(command(TunnelCommand::Disconnect));
    machine.handle_event(down(TunnelFailure::Closed));
    let requests = machine.take_requests();
    let at = requests.iter().position(|r| matches!(r, Effect::SetDns(_))).unwrap();
    match &requests[at] {
        Effect::SetDns(config) => assert_eq!(config.interface, "lo"),
        _ => unreachable!(),
    }
    assert!(matches!(requests[at + 1], Effect::ResetFirewallPolicy));
}

#[test]
fn connected_state_follows_dns_and_endpoint_changes() {
    let mut machine = connected_machine();
    machine.handle_event(command(TunnelCommand::Dns(Some(vec![IpAddr::V4(5)]))));
    let requests = machine.take_requests();
    assert_eq!(requests.len(), 2);
    match &requests[0] {
        Effect::ApplyFirewallPolicy(FirewallPolicy::Connected { dns_servers, .. }) => {
            assert_eq!(dns_servers, &vec![IpAddr::V4(5)])
        }
        other => panic!("unexpected request {:?}", other),
    }
    match &requests[1] {
        Effect::SetDns(config) => {
            assert_eq!(config.interface, "wg0");
            assert_eq!(config.servers, vec![IpAddr::V4(5)]);
        }
        other => panic!("unexpected request {:?}", other),
    }
    machine.handle_event(command(TunnelCommand::Dns(Some(vec![IpAddr::V4(5)]))));
    assert!(machine.take_requests().is_empty());

    machine.handle_event(command(TunnelCommand::AllowEndpoint(peer(), AckId(1))));
    let requests = machine.take_requests();
    assert_eq!(requests.len(), 2);
    match &requests[0] {
        Effect::ApplyFirewallPolicy(FirewallPolicy::Connected { allowed_endpoint, .. }) => {
            assert_eq!(*allowed_endpoint, Some(peer()))
        }
        other => panic!("unexpected request {:?}", other),
    }
    machine.handle_event(command(TunnelCommand::Connect));
    machine.handle_event(up());
    machine.handle_event(command(TunnelCommand::BlockWhenDisconnected(true)));
    assert!(machine.take_requests().is_empty());
    assert!(machine.shared_values().block_when_disconnected);

    machine.handle_event(command(TunnelCommand::Block(ErrorStateCause::IsOffline)));
    let requests = machine.take_requests();
    assert_eq!(dns_resets(&requests), 1);
    assert!(matches!(requests[0], Effect::ResetDns));
    assert!(matches!(machine.state(), Some(TunnelStateWrapper::Error(_))));
}

#[test]
fn connecting_state_reapplies_on_changed_exceptions_only() {
    let mut machine = TunnelStateMachine::new(settings(false), no_capabilities());
    machine.handle_event(command(TunnelCommand::Connect));
    machine.take_requests();
    machine.handle_event(command(TunnelCommand::AllowLan(false)));
    machine.handle_event(command(TunnelCommand::Dns(Some(vec![IpAddr::V4(5)]))));
    machine.handle_event(command(TunnelCommand::Connect));
    machine.handle_event(Some(Event::Report(Report::Dns(true))));
    machine.handle_event(Some(Event::Report(Report::SplitTunnel(false))));
    assert!(machine.take_requests().is_empty());
    machine.handle_event(command(TunnelCommand::AllowLan(true)));
    let requests = machine.take_requests();
    assert_eq!(requests.len(), 1);
    match &requests[0] {
        Effect::ApplyFirewallPolicy(FirewallPolicy::Connecting { allow_lan, .. }) => {
            assert!(*allow_lan)
        }
        other => panic!("unexpected request {:?}", other),
    }
    machine.handle_event(Some(Event::Tunnel(TunnelEvent::Selected(peer()))));
    machine.handle_event(Some(Event::Tunnel(TunnelEvent::Selected(peer()))));
    assert_eq!(machine.take_requests().len(), 1);

    machine.handle_event(command(TunnelCommand::Block(ErrorStateCause::IsOffline)));
    let requests = machine.take_requests();
    assert!(matches!(requests[0], Effect::ResetDns));
    assert!(matches!(requests[1], Effect::StopTunnel));
    assert!(matches!(requests[2], Effect::ApplyFirewallPolicy(FirewallPolicy::Blocked { .. })));
}

#[test]
fn every_retry_starts_the_tunnel_with_the_next_attempt_number() {
    let mut machine = TunnelStateMachine::new(settings(false), no_capabilities());
    machine.handle_event(command(TunnelCommand::Connect));
    machine.take_requests();
    for attempt in 1..=MAX_RETRY_ATTEMPT {
        machine.handle_event(down(TunnelFailure::Closed));
        let requests = machine.take_requests();
        assert_eq!(requests.len(), 3);
        assert!(matches!(
            requests[0],
            Effect::ApplyFirewallPolicy(FirewallPolicy::Connecting { peer_endpoint: None, .. })
        ));
        assert!(matches!(requests[1], Effect::StartTunnel { attempt: a } if a == attempt));
        assert!(matches!(requests[2], Effect::Notify(TunnelStateTransition::Connecting)));
    }
    machine.handle_event(down(TunnelFailure::Closed));
    assert!(matches!(machine.state(), Some(TunnelStateWrapper::Error(_))));
    assert_eq!(MAX_RETRY_ATTEMPT, 4);
}

#[test]
fn the_firewall_record_matches_the_state_after_every_step() {
    let mut machine = TunnelStateMachine::new(settings(true), no_capabilities());
    let events = vec![
        command(TunnelCommand::AllowLan(true)),
        command(TunnelCommand::Connect),
        Some(Event::Tunnel(TunnelEvent::Selected(peer()))),
        command(TunnelCommand::AllowLan(false)),
        up(),
        command(TunnelCommand::AllowLan(true)),
        command(TunnelCommand::Disconnect),
        down(TunnelFailure::Closed),
        command(TunnelCommand::BlockWhenDisconnected(false)),
    ];
    for event in events {
        machine.handle_event(event);
        let shared = machine.shared_values();
        match (machine.state(), &shared.firewall) {
            (Some(TunnelStateWrapper::Disconnected(_)), FirewallStatus::Unfiltered) => {
                assert!(!shared.block_when_disconnected)
            }
            (
                Some(TunnelStateWrapper::Disconnected(_)),
                FirewallStatus::Applied(FirewallPolicy::Blocked { allow_lan, .. }),
            ) => {
                assert!(shared.block_when_disconnected);
                assert_eq!(*allow_lan, shared.allow_lan);
            }
            (
                Some(TunnelStateWrapper::Connecting(state)),
                FirewallStatus::Applied(FirewallPolicy::Connecting {
                    peer_endpoint,
                    allow_lan,
                    ..
                }),
            ) => {
                assert_eq!(*peer_endpoint, state.peer_endpoint);
                assert_eq!(*allow_lan, shared.allow_lan);
            }
            (
                Some(TunnelStateWrapper::Connected(_)),
                FirewallStatus::Applied(FirewallPolicy::Connected { allow_lan, .. }),
            ) => assert_eq!(*allow_lan, shared.allow_lan),
            (
                Some(TunnelStateWrapper::Disconnecting(_)),
                FirewallStatus::Applied(FirewallPolicy::Connected { .. }),
            ) => {}
            _ => panic!("the firewall does not match the state"),
        }
    }
    assert!(matches!(machine.shared_values().firewall, FirewallStatus::Unfiltered));
}

#[test]
fn failures_are_reported_and_successes_are_not() {
    let apply = Effect::ResetFirewallPolicy;
    assert!(apply.report(true).is_none());
    assert!(matches!(apply.report(false), Some(Report::Firewall(false))));
    assert!(matches!(Effect::ResetDns.report(false), Some(Report::Dns(false))));
    let set = Effect::SetDns(DnsConfig { interface: "lo".to_string(), servers: vec![] });
    assert!(set.report(true).is_none());
    assert!(matches!(set.report(false), Some(Report::Dns(false))));
    assert!(matches!(
        Effect::ClearTunnelAddresses.report(false),
        Some(Report::SplitTunnel(false))
    ));
    assert!(matches!(
        Effect::SetTunnelAddresses(None).report(false),
        Some(Report::SplitTunnel(false))
    ));
    assert!(matches!(
        Effect::SetCustomResolver(None).report(false),
        Some(Report::CustomResolver(false))
    ));
    assert!(Effect::StopTunnel.report(false).is_none());
    assert!(Effect::StartTunnel { attempt: 0 }.report(false).is_none());
    assert!(Effect::QuerySystemDns.report(false).is_none());
    assert!(Effect::Notify(TunnelStateTransition::Connecting).report(false).is_none());
}

#[test]
fn states_are_announced_as_what_they_are() {
    let mut machine = TunnelStateMachine::new(settings(false), no_capabilities());
    let announced = |machine: &TunnelStateMachine| match machine.state() {
        Some(state) => state.transition(),
        None => panic!("the machine has stopped"),
    };
    assert_eq!(announced(&machine), TunnelStateTransition::Disconnected);
    machine.handle_event(command(TunnelCommand::Connect));
    assert_eq!(announced(&machine), TunnelStateTransition::Connecting);
    machine.handle_event(up());
    assert_eq!(announced(&machine), TunnelStateTransition::Connected(peer()));
    machine.handle_event(command(TunnelCommand::Disconnect));
    assert_eq!(
        announced(&machine),
        TunnelStateTransition::Disconnecting(ActionAfterDisconnect::Nothing)
    );
    machine.handle_event(command(TunnelCommand::Block(ErrorStateCause::IsOffline)));
    machine.handle_event(down(TunnelFailure::Closed));
    assert_eq!(announced(&machine), TunnelStateTransition::Error(ErrorStateCause::IsOffline));
    let requests = machine.take_requests();
    let notifications = requests.iter().filter(|r| matches!(r, Effect::Notify(_))).count();
    assert_eq!(notifications, 4);
}
