use tabssh::helpers::{format_permissions, sanitize_filename};
use tabssh::ssh_config::{parse_forward, wildcard_match};

#[test]
fn helpers_test_format_permissions() {
    assert_eq!(format_permissions(0o755), "rwxr-xr-x");
    assert_eq!(format_permissions(0o644), "rw-r--r--");
    assert_eq!(format_permissions(0o600), "rw-------");
}

#[test]
fn helpers_test_sanitize_filename() {
    assert_eq!(sanitize_filename("test.txt"), "test.txt");
    assert_eq!(sanitize_filename("test/file.txt"), "test_file.txt");
    assert_eq!(sanitize_filename("test:file?.txt"), "test_file_.txt");
}

#[test]
fn helpers_test_test_format_permissions() {
    assert_eq!(format_permissions(0o755), "rwxr-xr-x");
    assert_eq!(format_permissions(0o644), "rw-r--r--");
    assert_eq!(format_permissions(0o777), "rwxrwxrwx");
    assert_eq!(format_permissions(0o000), "---------");
}

#[test]
fn helpers_test_test_sanitize_filename() {
    assert_eq!(sanitize_filename("normal.txt"), "normal.txt");
    assert_eq!(sanitize_filename("path/to/file.txt"), "path_to_file.txt");
    assert_eq!(sanitize_filename("bad:name?.txt"), "bad_name_.txt");
}

#[test]
fn format_permissions_ignores_high_bits() {
    assert_eq!(format_permissions(0o100644), "rw-r--r--");
    assert_eq!(format_permissions(0o4755), "rwxr-xr-x");
}

#[test]
fn sanitize_filename_replaces_every_unsafe_char() {
    assert_eq!(sanitize_filename("a\\b*c\"d<e>f|g"), "a_b_c_d_e_f_g");
    assert_eq!(sanitize_filename(""), "");
    assert_eq!(sanitize_filename("héllo wörld"), "héllo wörld");
}

#[test]
fn test_wildcard_match() {
    assert!(wildcard_match("*.example.com", "server.example.com"));
    assert!(wildcard_match("server?", "server1"));
    assert!(!wildcard_match("*.com", "example.org"));
}

#[test]
fn wildcard_match_edge_cases() {
    assert!(wildcard_match("*", ""));
    assert!(wildcard_match("", ""));
    assert!(!wildcard_match("", "a"));
    assert!(!wildcard_match("?", ""));
    assert!(wildcard_match("a*b*c", "aXXbYYc"));
    assert!(!wildcard_match("a*b*c", "aXXbYY"));
    assert!(wildcard_match("exact", "exact"));
    assert!(!wildcard_match("exact", "exacT"));
}

#[test]
fn test_parse_forwards() {
    assert_eq!(
        parse_forward(&["8080", "localhost:80"]),
        Some((8080, "localhost".to_string(), 80))
    );
    assert_eq!(
        parse_forward(&["8080:localhost:80"]),
        Some((8080, "localhost".to_string(), 80))
    );
}

#[test]
fn parse_forward_edge_cases() {
    assert_eq!(parse_forward(&[]), None);
    assert_eq!(parse_forward(&["70000", "host:80"]), None);
    assert_eq!(parse_forward(&["+22", "[::1]:2222"]), Some((22, "[::1]".to_string(), 2222)));
    assert_eq!(parse_forward(&["1:a:b:2"]), None);
    assert_eq!(parse_forward(&["x", "1:h:2"]), None);
    assert_eq!(parse_forward(&["1:h:2", "junk"]), Some((1, "h".to_string(), 2)));
    assert_eq!(parse_forward(&["65535::0"]), Some((65535, "".to_string(), 0)));
    assert_eq!(parse_forward(&["8080", "host"]), None);
}
