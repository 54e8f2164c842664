//! Requests to the collaborators that carry out the controller's decisions.

use vstd::prelude::*;
use crate::firewall::{FirewallPolicy, FirewallPolicyView};
use crate::net::{dns_config_view, DnsConfig, DnsConfigView, TunnelMetadata, TunnelMetadataView};
use crate::transition::TunnelStateTransition;

verus! {

/// Names the single-use channel on which the sender of a command waits
/// for its completion.
#[derive(Clone, Copy, Debug, PartialEq, Eq, Structural)]
pub struct AckId(pub u64);

/// Why a command that asked for an acknowledgment was not carried out.
#[derive(Clone, Copy, Debug, PartialEq, Eq, Structural)]
pub enum AckError {
    /// The platform lacks the capability, or the current state does not
    /// serve the command.
    Unavailable,
    /// The local resolver rejected the change.
    CustomResolver,
    /// The system DNS configuration could not be read.
    SystemDns,
    /// The system DNS configuration could not be changed.
    SetDns,
}

/// One request to a collaborator.
#[derive(Debug)]
pub enum Effect {
    /// Firewall: enforce this policy.
    ApplyFirewallPolicy(FirewallPolicy),
    /// Firewall: remove every rule of this controller.
    ResetFirewallPolicy,
    /// DNS monitor: use these servers on this interface.
    SetDns(DnsConfig),
    /// DNS monitor: restore the system's own configuration.
    ResetDns,
    /// DNS monitor: read the system's own configuration.
    QuerySystemDns,
    /// Split tunnel: register the addresses of this tunnel, or of none.
    SetTunnelAddresses(Option<TunnelMetadata>),
    /// Split tunnel: forget the registered addresses.
    ClearTunnelAddresses,
    /// Split tunnel: exclude these paths; the driver answers on `ack`.
    SetExcludedPaths { paths: Vec<String>, ack: AckId },
    /// Tunnel provider: close a lingering tunnel device.
    CloseTun,
    /// Tunnel provider: let this socket bypass the tunnel; the provider
    /// answers on `ack`.
    BypassSocket { fd: i32, ack: AckId },
    /// Connectivity monitor: start its check afresh.
    ResetConnectivityCheck,
    /// Local resolver: forward to this configuration, or stop.
    SetCustomResolver(Option<DnsConfig>),
    /// Tunnel monitor: start a tunnel; `attempt` counts from zero.
    StartTunnel { attempt: u32 },
    /// Tunnel monitor: stop the tunnel.
    StopTunnel,
    /// Answer the sender of a command.
    Acknowledge { ack: AckId, result: Result<(), AckError> },
    /// Announce a transition to the observers.
    Notify(TunnelStateTransition),
}

/// Mathematical content of an [`Effect`].
pub enum EffectView {
    ApplyFirewallPolicy(FirewallPolicyView),
    ResetFirewallPolicy,
    SetDns(DnsConfigView),
    ResetDns,
    QuerySystemDns,
    SetTunnelAddresses(Option<TunnelMetadataView>),
    ClearTunnelAddresses,
    SetExcludedPaths { paths: Seq<Seq<char>>, ack: AckId },
    CloseTun,
    BypassSocket { fd: i32, ack: AckId },
    ResetConnectivityCheck,
    SetCustomResolver(Option<DnsConfigView>),
    StartTunnel { attempt: u32 },
    StopTunnel,
    Acknowledge { ack: AckId, result: Result<(), AckError> },
    Notify(TunnelStateTransition),
}

/// View of optional tunnel metadata.
pub open spec fn metadata_view(metadata: Option<TunnelMetadata>) -> Option<TunnelMetadataView> {
    match metadata {
        Some(m) => Some(m@),
        None => None,
    }
}

/// View of a list of paths.
pub open spec fn paths_view(paths: Vec<String>) -> Seq<Seq<char>> {
    Seq::new(paths@.len(), |i: int| paths@[i]@)
}

impl View for Effect {
    type V = EffectView;

    open spec fn view(&self) -> EffectView {
        match *self {
            Effect::ApplyFirewallPolicy(policy) => EffectView::ApplyFirewallPolicy(policy@),
            Effect::ResetFirewallPolicy => EffectView::ResetFirewallPolicy,
            Effect::SetDns(config) => EffectView::SetDns(config@),
            Effect::ResetDns => EffectView::ResetDns,
            Effect::QuerySystemDns => EffectView::QuerySystemDns,
            Effect::SetTunnelAddresses(metadata) => EffectView::SetTunnelAddresses(
                metadata_view(metadata),
            ),
            Effect::ClearTunnelAddresses => EffectView::ClearTunnelAddresses,
            Effect::SetExcludedPaths { paths, ack } => EffectView::SetExcludedPaths {
                paths: paths_view(paths),
                ack,
            },
            Effect::CloseTun => EffectView::CloseTun,
            Effect::BypassSocket { fd, ack } => EffectView::BypassSocket { fd, ack },
            Effect::ResetConnectivityCheck => EffectView::ResetConnectivityCheck,
            Effect::SetCustomResolver(config) => EffectView::SetCustomResolver(
                dns_config_view(config),
            ),
            Effect::StartTunnel { attempt } => EffectView::StartTunnel { attempt },
            Effect::StopTunnel => EffectView::StopTunnel,
            Effect::Acknowledge { ack, result } => EffectView::Acknowledge { ack, result },
            Effect::Notify(transition) => EffectView::Notify(transition),
        }
    }
}

/// View of a list of requests.
pub open spec fn effects_view(effects: Seq<Effect>) -> Seq<EffectView> {
    Seq::new(effects.len(), |i: int| effects[i]@)
}

impl EffectView {
    /// Whether the request changes what the firewall enforces.
    pub open spec fn touches_firewall(self) -> bool {
        self is ApplyFirewallPolicy || self is ResetFirewallPolicy
    }

    /// The acknowledgment channel that the request discharges, by
    /// answering on it or by handing it to the collaborator that will.
    pub open spec fn answered(self) -> Option<AckId> {
        match self {
            EffectView::Acknowledge { ack, .. } => Some(ack),
            EffectView::SetExcludedPaths { ack, .. } => Some(ack),
            EffectView::BypassSocket { ack, .. } => Some(ack),
            _ => None,
        }
    }
}

} // verus!
