//! Addresses as numbers and as text, and the parse of the configured bridge.
use lambdo::agent::config::{default_grpc, AgentConfig, AgentConfigError};
use lambdo::net::{ipv4_to_string, parse_ipv4_inet, validate_bridge_config};
use lambdo::vmm::{Error, Ipv4Net};

#[test]
fn dotted_notation_of_addresses() {
    assert_eq!(ipv4_to_string(0xC0A80A01), "192.168.10.1");
    assert_eq!(ipv4_to_string(0), "0.0.0.0");
    assert_eq!(ipv4_to_string(0xFFFFFFFF), "255.255.255.255");
    assert_eq!(ipv4_to_string(0x0A000002), "10.0.0.2");
}

#[test]
fn bridge_addresses_parse_to_address_and_prefix() {
    assert_eq!(
        parse_ipv4_inet("192.168.10.1/24"),
        Some(Ipv4Net {
            address: 0xC0A80A01,
            prefix: 24,
        })
    );
    assert_eq!(
        parse_ipv4_inet("10.0.0.1/30"),
        Some(Ipv4Net {
            address: 0x0A000001,
            prefix: 30,
        })
    );
    // A bare address is a host: the prefix is the whole address.
    assert_eq!(
        parse_ipv4_inet("10.0.0.1"),
        Some(Ipv4Net {
            address: 0x0A000001,
            prefix: 32,
        })
    );
}

#[test]
fn bad_bridge_addresses_are_refused() {
    assert_eq!(parse_ipv4_inet("192.168.10.1/33"), None);
    assert_eq!(parse_ipv4_inet("not an address"), None);
    assert_eq!(parse_ipv4_inet("192.168.10/24"), None);
    assert_eq!(parse_ipv4_inet(""), None);
}

#[test]
fn bridge_configuration_is_checked_before_any_setup() {
    let ok = validate_bridge_config(&"lambdo0".to_string(), &"192.168.10.1/24".to_string());
    assert_eq!(
        ok.unwrap(),
        Ipv4Net {
            address: 0xC0A80A01,
            prefix: 24,
        }
    );
    // An interface name is at most fifteen characters.
    assert!(matches!(
        validate_bridge_config(
            &"a-very-long-bridge-name".to_string(),
            &"192.168.10.1/24".to_string()
        ),
        Err(Error::NetSetupError(_))
    ));
    assert!(matches!(
        validate_bridge_config(&"lambdo0".to_string(), &"not an address".to_string()),
        Err(Error::NetSetupError(_))
    ));
}

#[test]
fn agent_config_validation_and_defaults() {
    let grpc = default_grpc("192.168.10.1".to_string());
    assert_eq!(grpc.remote_port, 50051);
    assert_eq!(grpc.remote_host, "192.168.10.1");
    assert_eq!(grpc.local_port, 0);
    assert_eq!(grpc.local_host, "0.0.0.0");

    let config = AgentConfig {
        apiVersion: "lambdo.io/v1alpha1".to_string(),
        kind: "AgentConfig".to_string(),
        grpc,
        workspace_path: "/tmp".to_string(),
    };
    assert!(config.validate().is_ok());

    let wrong_kind = AgentConfig {
        kind: "Config".to_string(),
        ..config
    };
    assert!(matches!(
        wrong_kind.validate(),
        Err(AgentConfigError::KindNotSupported)
    ));
}

#[test]
fn library_defaults_match_the_documented_bridge() {
    assert_eq!(lambdo::config::default_bridge(), "lambdo0");
    assert_eq!(lambdo::config::default_bridge_address(), "192.168.10.1/24");
}
