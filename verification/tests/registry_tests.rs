use veter::bus::NextResult;
use veter::config::{Config, default_address, default_port};
use veter::registry::standard_registry;

#[test]
fn standard_channels_and_policies() {
    let registry = standard_registry();
    assert_eq!(registry.channel_count(), 2);

    assert_eq!(registry.configs[0].name, "state".to_string());
    assert_eq!(registry.configs[0].capacity, 10);
    assert!(registry.configs[0].inbound_requires_auth);
    assert!(!registry.configs[0].outbound_requires_auth);

    assert_eq!(registry.configs[1].name, "interaction".to_string());
    assert_eq!(registry.configs[1].capacity, 10);
    assert!(!registry.configs[1].inbound_requires_auth);
    assert!(registry.configs[1].outbound_requires_auth);
}

#[test]
fn channels_are_routed_by_name() {
    let registry = standard_registry();
    assert_eq!(registry.find_channel(&"state".to_string()), Some(0));
    assert_eq!(registry.find_channel(&"interaction".to_string()), Some(1));
    assert_eq!(registry.find_channel(&"health".to_string()), None);
    assert_eq!(registry.find_channel(&"".to_string()), None);
}

#[test]
fn channels_do_not_share_a_bus() {
    let mut registry = standard_registry();
    let mut sub = registry.buses[1].subscribe();
    registry.buses[0].publish("only on state".to_string());
    assert_eq!(registry.buses[1].next(&mut sub), NextResult::Pending);
    assert_eq!(registry.buses[0].message_count(), 1);
    assert_eq!(registry.buses[1].message_count(), 0);
}

#[test]
fn configuration_defaults() {
    assert_eq!(default_port(), 3030);
    assert_eq!(default_address(), [0, 0, 0, 0]);
    let config = Config::new("secret".to_string());
    assert_eq!(config.address, [0, 0, 0, 0]);
    assert_eq!(config.port, 3030);
    assert_eq!(config.token, "secret".to_string());
}
