//! Outward-facing descriptions of the tunnel state.

use vstd::prelude::*;
use crate::net::Endpoint;

verus! {

/// Why the tunnel monitor reports that a tunnel is down.
#[derive(Clone, Copy, Debug, PartialEq, Eq, Structural)]
pub enum TunnelFailure {
    /// The peer rejected the credentials.
    AuthFailed,
    /// The peer could not be reached.
    NetworkUnreachable,
    /// The tunnel device could not be created or was lost.
    DeviceFailed,
    /// The tunnel closed without naming a reason.
    Closed,
}

/// Why the error state was entered.
#[derive(Clone, Copy, Debug, PartialEq, Eq, Structural)]
pub enum ErrorStateCause {
    /// Authentication with the peer failed.
    AuthFailed,
    /// The firewall rejected a policy.
    SetFirewallPolicyError,
    /// The system DNS configuration could not be changed.
    SetDnsError,
    /// The tunnel could not be brought up within the allowed attempts.
    TunnelFailure(TunnelFailure),
    /// No tunnel parameters could be produced.
    TunnelParameterError,
    /// The host is offline.
    IsOffline,
    /// The split-tunnel driver failed.
    SplitTunnelError,
    /// The local resolver could not be activated.
    CustomResolverError,
    /// The system DNS configuration could not be read.
    ReadSystemDnsConfig,
}

/// What follows once a tunnel that is being torn down has stopped.
#[derive(Clone, Copy, Debug, PartialEq, Eq, Structural)]
pub enum ActionAfterDisconnect {
    /// Stay disconnected.
    Nothing,
    /// Enter the error state.
    Block(ErrorStateCause),
    /// Set up a new tunnel.
    Reconnect,
}

/// The state as it is announced to observers after each transition.
#[derive(Clone, Copy, Debug, PartialEq, Eq, Structural)]
pub enum TunnelStateTransition {
    Disconnected,
    Connecting,
    Connected(Endpoint),
    Disconnecting(ActionAfterDisconnect),
    Error(ErrorStateCause),
}

} // verus!
