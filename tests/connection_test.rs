use tabssh::connection::{AuthType, ConnectionConfig};

#[test]
fn connection_config_defaults_and_builders() {
    let c = ConnectionConfig::new("example.com", "admin");
    assert_eq!(c.host, "example.com");
    assert_eq!(c.username, "admin");
    assert_eq!(c.port, 22);
    assert_eq!(c.auth_type, AuthType::Password);
    assert_eq!(c.timeout, 30);
    assert_eq!(c.keepalive, 60);
    assert!(!c.compression);
    let c = c
        .with_port(2222)
        .with_auth(AuthType::PublicKey)
        .with_timeout(5)
        .with_keepalive(0)
        .with_compression(true);
    assert_eq!(c.port, 2222);
    assert_eq!(c.auth_type, AuthType::PublicKey);
    assert_eq!(c.timeout, 5);
    assert_eq!(c.keepalive, 0);
    assert!(c.compression);
    assert_eq!(c.host, "example.com");
}
