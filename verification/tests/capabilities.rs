use deepomni::capabilities::{Capability, CapabilityRegistry, Stage};

#[test]
fn test_default_registry() {
    let reg = CapabilityRegistry::new();
    assert!(reg.is_enabled(Capability::McpServers));
    assert!(!reg.is_enabled(Capability::ComputerUse));
}

#[test]
fn test_enable_disable() {
    let mut reg = CapabilityRegistry::new();
    reg.enable(Capability::ComputerUse);
    assert!(reg.is_enabled(Capability::ComputerUse));
    reg.disable(Capability::ComputerUse);
    assert!(!reg.is_enabled(Capability::ComputerUse));
}

#[test]
fn test_stages() {
    assert_eq!(Capability::ComputerUse.stage(), Stage::UnderDevelopment);
    assert_eq!(Capability::McpServers.stage(), Stage::Stable);
}

#[test]
fn stable_features_are_on_from_the_start() {
    let reg = CapabilityRegistry::new();
    for cap in [Capability::McpServers, Capability::ComputerUse] {
        assert_eq!(cap.default_enabled(), cap.stage() == Stage::Stable);
        assert_eq!(reg.is_enabled(cap), cap.default_enabled());
    }
}
