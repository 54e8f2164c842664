//! What the controller is driven by: commands of the daemon, events of the
//! tunnel monitor and reports on requests that were carried out.

use vstd::prelude::*;
use crate::effect::{AckId, Effect, EffectView};
use crate::net::{DnsConfig, Endpoint, IpAddr, TunnelMetadata};
use crate::transition::{ErrorStateCause, TunnelFailure};

verus! {

/// What reading the system's own DNS configuration gave.
#[derive(Debug)]
pub enum SystemDnsRead {
    /// The configuration could not be read.
    Unreadable,
    /// The configuration, if the system has one.
    Read(Option<DnsConfig>),
}

/// One step of a switch of the local resolver that needs a collaborator
/// before the machine can decide.
#[derive(Clone, Copy, Debug, PartialEq, Eq, Structural)]
pub enum ResolverStep {
    /// The resolver stops forwarding.
    Deactivate,
    /// The system's own DNS configuration is read.
    ReadSystemDns,
    /// The firewall lets the system's own resolvers pass.
    AllowResolvers,
    /// The resolver forwards to the system's own resolvers.
    Activate,
    /// The system is pointed at the resolver.
    Redirect,
}

/// How a collaborator answered an inquiry.
#[derive(Debug)]
pub enum Outcome {
    /// It failed.
    Failed,
    /// It succeeded.
    Done,
    /// It read this as the system's own DNS configuration.
    SystemDns(Option<DnsConfig>),
}

/// What the collaborators answered while a switch of the local resolver
/// was prepared, step by step. A step that was not taken has no answer,
/// and counts as failed where the switch depends on it.
#[derive(Debug)]
pub struct ResolverOutcomes {
    /// Whether the resolver stopped forwarding.
    pub deactivated: Option<bool>,
    /// What the system's own DNS configuration was read as.
    pub system_dns: Option<SystemDnsRead>,
    /// Whether the firewall accepted the policy that lets the system's
    /// own resolvers pass.
    pub filtered: Option<bool>,
    /// Whether the resolver took up forwarding.
    pub activated: Option<bool>,
    /// Whether the system was pointed at the resolver.
    pub redirected: Option<bool>,
}

/// The outcomes with that of `step` noted: a failed or successful step is
/// noted as such, and what was read counts as a success of the reading
/// and of nothing else.
pub open spec fn noted(
    outcomes: ResolverOutcomes,
    step: ResolverStep,
    outcome: Outcome,
) -> ResolverOutcomes {
    match step {
        ResolverStep::Deactivate => ResolverOutcomes {
            deactivated: Some(outcome is Done),
            ..outcomes
        },
        ResolverStep::ReadSystemDns => ResolverOutcomes {
            system_dns: Some(
                match outcome {
                    Outcome::SystemDns(config) => SystemDnsRead::Read(config),
                    _ => SystemDnsRead::Unreadable,
                },
            ),
            ..outcomes
        },
        ResolverStep::AllowResolvers => ResolverOutcomes {
            filtered: Some(outcome is Done),
            ..outcomes
        },
        ResolverStep::Activate => ResolverOutcomes { activated: Some(outcome is Done), ..outcomes },
        ResolverStep::Redirect => ResolverOutcomes {
            redirected: Some(outcome is Done),
            ..outcomes
        },
    }
}

impl ResolverOutcomes {
    /// No step taken yet.
    pub fn new() -> (outcomes: ResolverOutcomes)
        ensures
            outcomes == (ResolverOutcomes {
                deactivated: None,
                system_dns: None,
                filtered: None,
                activated: None,
                redirected: None,
            }),
    {
        ResolverOutcomes {
            deactivated: None,
            system_dns: None,
            filtered: None,
            activated: None,
            redirected: None,
        }
    }

    /// Notes how the collaborator answered `step`.
    pub fn note(&mut self, step: ResolverStep, outcome: Outcome)
        ensures
            *final(self) == noted(*old(self), step, outcome),
    {
        let done = match &outcome {
            Outcome::Done => true,
            _ => false,
        };
        match step {
            ResolverStep::Deactivate => {
                self.deactivated = Some(done);
            },
            ResolverStep::ReadSystemDns => {
                self.system_dns = Some(
                    match outcome {
                        Outcome::SystemDns(config) => SystemDnsRead::Read(config),
                        _ => SystemDnsRead::Unreadable,
                    },
                );
            },
            ResolverStep::AllowResolvers => {
                self.filtered = Some(done);
            },
            ResolverStep::Activate => {
                self.activated = Some(done);
            },
            ResolverStep::Redirect => {
                self.redirected = Some(done);
            },
        }
    }
}

/// A command of the surrounding daemon.
#[derive(Debug)]
pub enum TunnelCommand {
    /// Allow or forbid traffic to the local network.
    AllowLan(bool),
    /// Exempt this endpoint from blocking; answered on the channel.
    AllowEndpoint(Endpoint, AckId),
    /// Use these DNS servers, or the default ones.
    Dns(Option<Vec<IpAddr>>),
    /// Block all traffic while disconnected, or do not.
    BlockWhenDisconnected(bool),
    /// The host has gone offline or come back.
    IsOffline(bool),
    /// Set up a tunnel.
    Connect,
    /// Tear the tunnel down.
    Disconnect,
    /// Enter the error state for this reason.
    Block(ErrorStateCause),
    /// Let the socket with this descriptor bypass the tunnel.
    BypassSocket(i32, AckId),
    /// Exclude these applications from the tunnel.
    SetExcludedApps(AckId, Vec<String>),
    /// Switch the local resolver on or off. The third field holds what
    /// the collaborators answered to the inquiries that the switch needs:
    /// whoever sends the command leaves it empty, and the driver fills it
    /// in before the machine takes its turn.
    SetCustomResolver(bool, AckId, ResolverOutcomes),
    /// The system's own DNS configuration has changed to this.
    HostDnsConfig(Option<DnsConfig>),
    /// Let traffic to these addresses pass while blocked.
    AddAllowedIps(Vec<IpAddr>, AckId),
}

/// An event of the tunnel monitor.
#[derive(Debug)]
pub enum TunnelEvent {
    /// The peer of the tunnel being set up has been chosen.
    Selected(Endpoint),
    /// The tunnel is up.
    Up(TunnelMetadata),
    /// The tunnel is down.
    Down(TunnelFailure),
}

/// The outcome of a request, handed back by the driver.
#[derive(Debug)]
pub enum Report {
    /// Whether the firewall accepted its last request.
    Firewall(bool),
    /// Whether the DNS monitor carried out its last request.
    Dns(bool),
    /// Whether the split-tunnel driver carried out its last request.
    SplitTunnel(bool),
    /// Whether the local resolver carried out its last request.
    CustomResolver(bool),
}

/// One item of the ordered stream that drives the controller.
#[derive(Debug)]
pub enum Event {
    Command(TunnelCommand),
    Tunnel(TunnelEvent),
    Report(Report),
}

/// The report that the driver owes on a request that it has carried
/// out: a failure of the firewall, the DNS monitor, the split-tunnel
/// driver or the local resolver is reported, and nothing else is. The
/// other requests are answered by events of their own or not at all.
pub open spec fn report_on(effect: EffectView, succeeded: bool) -> Option<Report> {
    if succeeded {
        None
    } else {
        match effect {
            EffectView::ApplyFirewallPolicy(_) | EffectView::ResetFirewallPolicy => Some(
                Report::Firewall(false),
            ),
            EffectView::SetDns(_) | EffectView::ResetDns => Some(Report::Dns(false)),
            EffectView::SetTunnelAddresses(_) | EffectView::ClearTunnelAddresses => Some(
                Report::SplitTunnel(false),
            ),
            EffectView::SetCustomResolver(_) => Some(Report::CustomResolver(false)),
            _ => None,
        }
    }
}

impl Effect {
    /// The report that the driver owes the machine once it has carried
    /// out this request; `succeeded` tells how that went.
    pub fn report(&self, succeeded: bool) -> (report: Option<Report>)
        ensures
            report == report_on(self@, succeeded),
    {
        if succeeded {
            None
        } else {
            match self {
                Effect::ApplyFirewallPolicy(_) | Effect::ResetFirewallPolicy => Some(
                    Report::Firewall(false),
                ),
                Effect::SetDns(_) | Effect::ResetDns => Some(Report::Dns(false)),
                Effect::SetTunnelAddresses(_) | Effect::ClearTunnelAddresses => Some(
                    Report::SplitTunnel(false),
                ),
                Effect::SetCustomResolver(_) => Some(Report::CustomResolver(false)),
                _ => None,
            }
        }
    }
}

impl TunnelCommand {
    /// The acknowledgment channel the command carries, if any.
    pub open spec fn ack(self) -> Option<AckId> {
        match self {
            TunnelCommand::AllowEndpoint(_, ack) => Some(ack),
            TunnelCommand::BypassSocket(_, ack) => Some(ack),
            TunnelCommand::SetExcludedApps(ack, _) => Some(ack),
            TunnelCommand::SetCustomResolver(_, ack, _) => Some(ack),
            TunnelCommand::AddAllowedIps(_, ack) => Some(ack),
            _ => None,
        }
    }
}

} // verus!
