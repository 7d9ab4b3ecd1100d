//! Bridges a virtual network interface to a message-oriented transport.
//!
//! The crate holds the logic of the bridge: the framing of packets that go
//! over the transport, the codec of the device channel, the relay's state
//! machine and the plan of firewall rules that routes traffic through the
//! virtual interface. Performing I/O is left to the caller.

pub mod packet_conv;
pub mod tap_codec;
pub mod relay;
pub mod cli_opts;
pub mod iptables;
pub mod host_model;
pub mod subnet;
