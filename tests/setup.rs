use mandala::{
    api_version, instance_plan, next_phase, phase_color, ClientConfigBuilder, ConfigError,
    GestaltConfig, MandalaClient, MandalaError, MandalaServer, ServerAddr, ServerConfigBuilder,
    APPLICATION_NAME, VALIDATION_LAYER,
};

#[test]
fn plan_with_validation() {
    let config = GestaltConfig { visible: true, enable_validation: true, portability: false };
    let plan = instance_plan(&config, vec!["VK_KHR_surface".to_string(), "VK_KHR_xlib_surface".to_string()]);
    assert_eq!(plan.extensions, vec!["VK_KHR_surface", "VK_KHR_xlib_surface", "VK_EXT_debug_utils"]);
    assert_eq!(plan.layers, vec!["VK_LAYER_KHRONOS_validation"]);
    assert_eq!(plan.application_name, "Mandala");
    assert_eq!(plan.engine_name, APPLICATION_NAME);
    assert_eq!(plan.application_version, 0);
    assert_eq!(plan.engine_version, 0);
    assert_eq!(plan.api_version, 4206592);
}

#[test]
fn plan_with_portability_without_validation() {
    let config = GestaltConfig { visible: false, enable_validation: false, portability: true };
    let plan = instance_plan(&config, vec![]);
    assert_eq!(
        plan.extensions,
        vec![
            "VK_EXT_debug_utils",
            "VK_KHR_portability_enumeration",
            "VK_KHR_get_physical_device_properties2"
        ]
    );
    assert!(plan.layers.is_empty());
    assert_eq!(VALIDATION_LAYER, "VK_LAYER_KHRONOS_validation");
}

#[test]
fn api_version_is_one_three() {
    assert_eq!(api_version(), (1 << 22) | (3 << 12));
}

#[test]
fn client_builder_requires_address() {
    let r = ClientConfigBuilder::new().build();
    assert!(matches!(r, Err(MandalaError::ConfigError(ConfigError::MissingServerAddr))));
    let addr = ServerAddr::V4 { octets: [127, 0, 0, 1], port: 49474 };
    let mut b = ClientConfigBuilder::default();
    b.server_addr(addr);
    let config = b.build().unwrap();
    assert_eq!(config.addr, addr);
    let client = MandalaClient::new(config);
    let _ = client;
}

#[test]
fn server_builder_requires_address() {
    let r = ServerConfigBuilder::new().build();
    assert!(matches!(r, Err(MandalaError::ConfigError(ConfigError::MissingServerAddr))));
    let addr = ServerAddr::V6 { segments: [0; 8], port: 9 };
    let config = ServerConfigBuilder::new().server_addr(addr).build().unwrap();
    assert_eq!(config.addr, addr);
    assert_eq!(MandalaServer::new(config).config().addr, addr);
}

#[test]
fn errors_convert() {
    let e: MandalaError = ConfigError::MissingServerAddr.into();
    assert!(matches!(e, MandalaError::ConfigError(ConfigError::MissingServerAddr)));
    let io = std::io::Error::new(std::io::ErrorKind::Other, "x");
    assert!(matches!(MandalaError::from(io), MandalaError::Io(_)));
}

#[test]
fn colour_cycle() {
    assert_eq!(next_phase(0), 1);
    assert_eq!(next_phase(254), 0);
    assert_eq!(next_phase(255), 1);
    assert_eq!(phase_color(10), (10, 64, 245));
}
