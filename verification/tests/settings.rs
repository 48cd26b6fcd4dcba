use ddns_rust::config::{
    default_host, default_log_level, default_port, Config, ProviderConfig, ServerConfig,
};

fn provider(name: &str, zone: &str) -> ProviderConfig {
    ProviderConfig {
        name: name.to_string(),
        provider_type: "cloudflare".to_string(),
        key: None,
        api_key: "k".to_string(),
        zone_id: zone.to_string(),
    }
}

#[test]
fn defaults() {
    assert_eq!(default_host(), "0.0.0.0");
    assert_eq!(default_port(), 3000);
    assert_eq!(default_log_level(), "info");
    let server = ServerConfig::default();
    assert_eq!(server.host, "0.0.0.0");
    assert_eq!(server.port, 3000);
    assert_eq!(server.log_level, "info");
}

#[test]
fn get_provider_finds_the_first_of_that_name() {
    let config = Config {
        server: ServerConfig::default(),
        providers: vec![provider("a", "z1"), provider("b", "z2"), provider("b", "z3")],
    };
    assert_eq!(config.get_provider("a").unwrap().zone_id, "z1");
    assert_eq!(config.get_provider("b").unwrap().zone_id, "z2");
    assert!(config.get_provider("c").is_none());
    assert!(config.get_provider("A").is_none());
    assert!(config.get_provider("").is_none());
}

#[test]
fn get_provider_on_no_providers() {
    let config = Config { server: ServerConfig::default(), providers: vec![] };
    assert!(config.get_provider("a").is_none());
}
