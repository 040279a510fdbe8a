//! Settings of one SSH connection.

use vstd::prelude::*;

verus! {

/// How the client authenticates.
#[derive(Debug, Clone, Copy, PartialEq, Eq, Structural)]
pub enum AuthType {
    Password,
    PublicKey,
    KeyboardInteractive,
}

/// SSH connection settings; timeouts and keep-alive intervals in seconds.
#[derive(Debug, Clone)]
pub struct ConnectionConfig {
    pub host: String,
    pub port: u16,
    pub username: String,
    pub auth_type: AuthType,
    pub timeout: u32,
    pub keepalive: u32,
    pub compression: bool,
}

impl ConnectionConfig {
    /// Settings for `username` at `host`, with port 22, password
    /// authentication, a 30 s timeout, a 60 s keep-alive and no compression.
    pub fn new(host: &str, username: &str) -> (c: ConnectionConfig)
        ensures
            c.host@ == host@,
            c.username@ == username@,
            c.port == 22,
            c.auth_type == AuthType::Password,
            c.timeout == 30,
            c.keepalive == 60,
            !c.compression,
    {
        ConnectionConfig {
            host: host.to_owned(),
            port: 22,
            username: username.to_owned(),
            auth_type: AuthType::Password,
            timeout: 30,
            keepalive: 60,
            compression: false,
        }
    }

    pub fn with_port(self, port: u16) -> (c: ConnectionConfig)
        ensures
            c == (ConnectionConfig { port, ..self }),
    {
        ConnectionConfig { port, ..self }
    }

    pub fn with_auth(self, auth_type: AuthType) -> (c: ConnectionConfig)
        ensures
            c == (ConnectionConfig { auth_type, ..self }),
    {
        ConnectionConfig { auth_type, ..self }
    }

    pub fn with_timeout(self, timeout: u32) -> (c: ConnectionConfig)
        ensures
            c == (ConnectionConfig { timeout, ..self }),
    {
        ConnectionConfig { timeout, ..self }
    }

    pub fn with_keepalive(self, keepalive: u32) -> (c: ConnectionConfig)
        ensures
            c == (ConnectionConfig { keepalive, ..self }),
    {
        ConnectionConfig { keepalive, ..self }
    }

    pub fn with_compression(self, compression: bool) -> (c: ConnectionConfig)
        ensures
            c == (ConnectionConfig { compression, ..self }),
    {
        ConnectionConfig { compression, ..self }
    }
}

} // verus!
