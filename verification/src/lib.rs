//! Control core of a VPN client.
//!
//! The crate decides which firewall policy, DNS configuration and tunnel
//! operations must be in force for every state of the tunnel, and records
//! those decisions as requests that a driver carries out.
//!
//! - [`tunnel_state_machine`] holds the machine: its five states, the
//!   turn that handles one event, and the laws of its runs.
//! - [`shared`] holds the settings and the record of every request made;
//!   [`command`], [`effect`], [`firewall`], [`transition`] and [`net`] hold
//!   what goes into and comes out of a turn.
//! - [`rest`] and [`rpc`] describe the requests to the API, and
//!   [`account`] what the `account` command reads and prints.

pub mod account;
pub mod command;
pub mod effect;
pub mod firewall;
pub mod net;
pub mod rest;
pub mod rpc;
pub mod shared;
pub mod transition;
pub mod tunnel_state_machine;
