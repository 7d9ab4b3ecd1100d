use vpn_connector::cli_opts::{parse_layer, CliOptions};
use vpn_connector::relay::{ConfigurationError, Layer};

fn options(layer: &str) -> CliOptions {
    CliOptions {
        websocket_address: "ws://127.0.0.1:7465/net".to_string(),
        vpn_network_addr: "192.168.8.1".to_string(),
        vpn_network_mask: "255.255.255.0".to_string(),
        vpn_interface_name: "vpn0".to_string(),
        vpn_mtu: 1220,
        vpn_layer: layer.to_string(),
    }
}

#[test]
fn layer_names_are_read() {
    assert_eq!(parse_layer("tun"), Ok(Layer::L3));
    assert_eq!(parse_layer("tap"), Ok(Layer::L2));
}

#[test]
fn other_layer_names_are_refused() {
    for name in ["", "TUN", "tun ", "tu", "tapp", "l3"] {
        assert_eq!(parse_layer(name), Err(ConfigurationError::InvalidLayer));
    }
}

#[test]
fn options_select_their_layer() {
    assert_eq!(options("tun").layer(), Ok(Layer::L3));
    assert_eq!(options("tap").layer(), Ok(Layer::L2));
    assert_eq!(options("bridge").layer(), Err(ConfigurationError::InvalidLayer));
}

#[test]
fn options_keep_their_fields() {
    let opts = options("tun").clone();
    assert_eq!(opts.vpn_interface_name, "vpn0");
    assert_eq!(opts.vpn_mtu, 1220);
}
