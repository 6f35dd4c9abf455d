use webgl_resources::utils::ServiceRegistry;

#[test]
fn registry_starts_empty() {
    let registry: ServiceRegistry<u32> = ServiceRegistry::new();
    assert_eq!(registry.get_service(1), None);
}

#[test]
fn registry_returns_what_was_added() {
    let mut registry: ServiceRegistry<u32> = ServiceRegistry::new();
    registry.add_service(1, 10);
    registry.add_service(2, 20);
    assert_eq!(registry.get_service(1), Some(&10));
    assert_eq!(registry.get_service(2), Some(&20));
    assert_eq!(registry.get_service(3), None);
}

#[test]
fn registry_keeps_one_service_per_tag() {
    let mut registry: ServiceRegistry<u32> = ServiceRegistry::new();
    registry.add_service(1, 10);
    registry.add_service(1, 11);
    assert_eq!(registry.get_service(1), Some(&11));
}
