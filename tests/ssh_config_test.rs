use tabssh::config_parser::SshConfigParser;

#[test]
fn test_parse_basic_config() {
    let config = r#"
Host example
    HostName example.com
    Port 2222
    User admin
    IdentityFile ~/.ssh/id_rsa
"#;

    let mut parser = SshConfigParser::new();
    parser.parse_content(config).unwrap();

    let host_config = parser.get_config("example").unwrap();
    assert_eq!(host_config.hostname, Some("example.com".to_string()));
    assert_eq!(host_config.port, Some(2222));
    assert_eq!(host_config.user, Some("admin".to_string()));
}

#[test]
fn test_parse_example_config() {
    let config = r#"
Host myserver
    HostName server.example.com
    Port 2222
    User admin
    IdentityFile ~/.ssh/id_rsa
    LocalForward 8080 localhost:80
    DynamicForward 1080
    Compression yes

Host *.internal
    ProxyJump bastion
    User internal-user

Host *
    ServerAliveInterval 60
"#;

    let mut parser = SshConfigParser::new();
    parser.parse_content(config).unwrap();

    let myserver = parser.get_config("myserver").unwrap();
    assert_eq!(myserver.hostname, Some("server.example.com".to_string()));
    assert_eq!(myserver.port, Some(2222));
    assert_eq!(myserver.user, Some("admin".to_string()));
    assert_eq!(myserver.compression, Some(true));
    assert!(!myserver.local_forward.is_empty());
    assert!(!myserver.dynamic_forward.is_empty());

    let internal = parser.get_config("web.internal").unwrap();
    assert_eq!(internal.proxy_jump, Some("bastion".to_string()));
}

#[test]
fn test_empty_config() {
    let parser = SshConfigParser::new();
    assert!(parser.get_config("nonexistent").is_none());
}

#[test]
fn test_comments_and_empty_lines() {
    let config = r#"
# This is a comment
Host test

    # Another comment
    HostName test.com
    
    # Inline comment
    Port 22 # Port number
"#;

    let mut parser = SshConfigParser::new();
    assert!(parser.parse_content(config).is_ok());
}

#[test]
fn config_options_in_detail() {
    let config = "host Alpha\r\n\tHOSTNAME a.example\n  proxycommand ssh -W %h:%p  jump\nRemoteForward 9000 db:5432\nLocalForward 1:x:2\nLocalForward 1 nohostport\nPort 99999\nServerAliveInterval 4000000000\nCompression No\nIdentityFile ~/k1\nIdentityFile /abs/k2\nhost\nUser orphan\nHost beta\nUser b";
    let mut parser = SshConfigParser::new();
    parser.parse_content_with_home(config, Some("/home/u".to_string())).unwrap();
    assert_eq!(parser.get_all_hosts(), vec!["Alpha".to_string(), "beta".to_string()]);
    let a = parser.get_config("Alpha").unwrap();
    assert_eq!(a.hostname, Some("a.example".to_string()));
    assert_eq!(a.proxy_command, Some("ssh -W %h:%p jump".to_string()));
    assert_eq!(a.remote_forward, vec![(9000, "db".to_string(), 5432)]);
    assert!(a.local_forward.is_empty());
    assert_eq!(a.port, None);
    assert_eq!(a.server_alive_interval, Some(4000000000));
    assert_eq!(a.compression, Some(false));
    assert_eq!(a.identity_file, vec!["/home/u/k1".to_string(), "/abs/k2".to_string()]);
    assert_eq!(a.user, None);
    let b = parser.get_config("beta").unwrap();
    assert_eq!(b.user, Some("b".to_string()));
    assert!(parser.get_config("gamma").is_none());
}

#[test]
fn config_later_block_replaces_same_pattern() {
    let mut parser = SshConfigParser::default();
    parser.parse_content_with_home("Host h\nPort 1\nHost h?\nPort 2\nHost h\nPort 3\n", None).unwrap();
    assert_eq!(parser.get_all_hosts(), vec!["h".to_string(), "h?".to_string()]);
    assert_eq!(parser.get_config("h").unwrap().port, Some(3));
    assert_eq!(parser.get_config("h1").unwrap().port, Some(2));
    parser.parse_content_with_home("Host x\nIdentityFile ~/id\n", None).unwrap();
    assert_eq!(parser.get_config("x").unwrap().identity_file, vec!["~/id".to_string()]);
    assert_eq!(parser.get_all_hosts().len(), 3);
}
