//! The options that configure a session.

use crate::relay::{ConfigurationError, Layer};
use vstd::prelude::*;

verus! {

/// The options of one session, as the command line gives them.
#[derive(Debug, Clone)]
pub struct CliOptions {
    /// Address of the transport endpoint.
    pub websocket_address: String,
    /// Address of the virtual interface in the overlay network.
    pub vpn_network_addr: String,
    /// Subnet mask of the overlay network.
    pub vpn_network_mask: String,
    /// Name of the virtual interface.
    pub vpn_interface_name: String,
    /// MTU of the virtual interface.
    pub vpn_mtu: u16,
    /// Layer of the virtual interface: "tun" or "tap".
    pub vpn_layer: String,
}

/// The layer that a name stands for: "tun" is L3, "tap" is L2.
pub open spec fn layer_named(name: Seq<char>) -> Result<Layer, ConfigurationError> {
    if name == "tun"@ {
        Ok(Layer::L3)
    } else if name == "tap"@ {
        Ok(Layer::L2)
    } else {
        Err(ConfigurationError::InvalidLayer)
    }
}

/// Reads a layer's name.
pub fn parse_layer(name: &str) -> (layer: Result<Layer, ConfigurationError>)
    ensures
        layer == layer_named(name@),
{
    let name = name.to_owned();
    if name == "tun".to_owned() {
        Ok(Layer::L3)
    } else if name == "tap".to_owned() {
        Ok(Layer::L2)
    } else {
        Err(ConfigurationError::InvalidLayer)
    }
}

impl CliOptions {
    /// The layer that these options select.
    pub fn layer(&self) -> (layer: Result<Layer, ConfigurationError>)
        ensures
            layer == layer_named(self.vpn_layer@),
    {
        parse_layer(self.vpn_layer.as_str())
    }
}

} // verus!
