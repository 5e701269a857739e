use mkarchqemu::config::{Config, DEFAULT_BIND_ADDRESS, DEFAULT_PORT};

#[test]
fn default_config_binds_loopback_on_8080() {
    let config = Config::default();
    assert_eq!(config.bind_address, "127.0.0.1");
    assert_eq!(config.port, 8080);
    assert_eq!(DEFAULT_BIND_ADDRESS, "127.0.0.1");
    assert_eq!(DEFAULT_PORT, 8080);
}

#[test]
fn config_holds_what_it_is_given() {
    let config = Config { bind_address: "0.0.0.0".to_string(), port: 9000 };
    assert_eq!(config, Config { bind_address: "0.0.0.0".to_string(), port: 9000 });
    assert_ne!(config, Config::default());
}
