//! Firewall policies and the record of what the firewall was last told.

use vstd::prelude::*;
use crate::net::{Endpoint, IpAddr, IpSet};

verus! {

/// The packet-filter configuration that should be in force.
#[derive(Debug)]
#[allow(inconsistent_fields)]
pub enum FirewallPolicy {
    /// A tunnel is being set up: only the tunnel's peer and the allowed
    /// exceptions pass.
    Connecting {
        /// The peer the tunnel is being established to, once it is known.
        peer_endpoint: Option<Endpoint>,
        allow_lan: bool,
        allowed_endpoint: Option<Endpoint>,
    },
    /// The tunnel is up: all traffic goes through it, plus the allowed
    /// exceptions.
    Connected {
        peer_endpoint: Endpoint,
        tunnel_interface: String,
        allow_lan: bool,
        allowed_endpoint: Option<Endpoint>,
        dns_servers: Vec<IpAddr>,
    },
    /// Nothing passes but the allowed exceptions.
    Blocked {
        allow_lan: bool,
        allowed_endpoint: Option<Endpoint>,
        allowed_ips: IpSet,
        allowed_resolvers: IpSet,
    },
}

/// Mathematical content of a [`FirewallPolicy`].
#[allow(inconsistent_fields)]
pub enum FirewallPolicyView {
    Connecting {
        peer_endpoint: Option<Endpoint>,
        allow_lan: bool,
        allowed_endpoint: Option<Endpoint>,
    },
    Connected {
        peer_endpoint: Endpoint,
        tunnel_interface: Seq<char>,
        allow_lan: bool,
        allowed_endpoint: Option<Endpoint>,
        dns_servers: Seq<IpAddr>,
    },
    Blocked {
        allow_lan: bool,
        allowed_endpoint: Option<Endpoint>,
        allowed_ips: Set<IpAddr>,
        allowed_resolvers: Set<IpAddr>,
    },
}

impl View for FirewallPolicy {
    type V = FirewallPolicyView;

    open spec fn view(&self) -> FirewallPolicyView {
        match *self {
            FirewallPolicy::Connecting { peer_endpoint, allow_lan, allowed_endpoint } => {
                FirewallPolicyView::Connecting { peer_endpoint, allow_lan, allowed_endpoint }
            },
            FirewallPolicy::Connected {
                peer_endpoint,
                tunnel_interface,
                allow_lan,
                allowed_endpoint,
                dns_servers,
            } => {
                FirewallPolicyView::Connected {
                    peer_endpoint,
                    tunnel_interface: tunnel_interface@,
                    allow_lan,
                    allowed_endpoint,
                    dns_servers: dns_servers@,
                }
            },
            FirewallPolicy::Blocked {
                allow_lan,
                allowed_endpoint,
                allowed_ips,
                allowed_resolvers,
            } => {
                FirewallPolicyView::Blocked {
                    allow_lan,
                    allowed_endpoint,
                    allowed_ips: allowed_ips@,
                    allowed_resolvers: allowed_resolvers@,
                }
            },
        }
    }
}

impl FirewallPolicy {
    /// A copy of the policy.
    pub fn duplicate(&self) -> (copy: FirewallPolicy)
        ensures
            copy@ == self@,
    {
        match self {
            FirewallPolicy::Connecting { peer_endpoint, allow_lan, allowed_endpoint } => {
                FirewallPolicy::Connecting {
                    peer_endpoint: *peer_endpoint,
                    allow_lan: *allow_lan,
                    allowed_endpoint: *allowed_endpoint,
                }
            },
            FirewallPolicy::Connected {
                peer_endpoint,
                tunnel_interface,
                allow_lan,
                allowed_endpoint,
                dns_servers,
            } => {
                FirewallPolicy::Connected {
                    peer_endpoint: *peer_endpoint,
                    tunnel_interface: tunnel_interface.clone(),
                    allow_lan: *allow_lan,
                    allowed_endpoint: *allowed_endpoint,
                    dns_servers: dns_servers.clone(),
                }
            },
            FirewallPolicy::Blocked {
                allow_lan,
                allowed_endpoint,
                allowed_ips,
                allowed_resolvers,
            } => {
                FirewallPolicy::Blocked {
                    allow_lan: *allow_lan,
                    allowed_endpoint: *allowed_endpoint,
                    allowed_ips: allowed_ips.duplicate(),
                    allowed_resolvers: allowed_resolvers.duplicate(),
                }
            },
        }
    }
}

/// What the firewall has last been told to enforce.
#[derive(Debug)]
pub enum FirewallStatus {
    /// No policy of this controller is in force: the last request, if any,
    /// was a reset.
    Unfiltered,
    /// The policy of the last request.
    Applied(FirewallPolicy),
}

/// Mathematical content of a [`FirewallStatus`].
pub enum FirewallStatusView {
    Unfiltered,
    Applied(FirewallPolicyView),
}

impl View for FirewallStatus {
    type V = FirewallStatusView;

    open spec fn view(&self) -> FirewallStatusView {
        match *self {
            FirewallStatus::Unfiltered => FirewallStatusView::Unfiltered,
            FirewallStatus::Applied(policy) => FirewallStatusView::Applied(policy@),
        }
    }
}

} // verus!
