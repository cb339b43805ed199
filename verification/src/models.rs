//! Core data model: a managed server, its lifecycle state and type, and
//! the result of a liveness query.

use vstd::prelude::*;

verus! {

/// Lifecycle state of a managed server process.
#[derive(Debug, Clone)]
pub enum ServerState {
    Offline,
    Online,
    Connecting,
    Disconnecting,
    Error,
}

/// Which mod-loader flavour a server runs.
#[derive(Debug, Clone)]
pub enum ServerType {
    Vanilla,
    Fabric,
    Forge,
    Neoforge,
    Paper,
    Quilt,
}

/// A managed server instance.
#[derive(Debug)]
pub struct Server {
    pub name: String,
    pub description: String,
    pub has_custom_img: bool,
    pub version: String,
    pub server_type: ServerType,
    pub server_state: ServerState,
}

impl Server {
    pub fn new(
        name: String,
        description: String,
        has_custom_img: bool,
        version: String,
        server_type: ServerType,
        server_state: ServerState,
    ) -> (s: Self)
        ensures
            s.name == name,
            s.description == description,
            s.has_custom_img == has_custom_img,
            s.version == version,
            s.server_type == server_type,
            s.server_state == server_state,
    {
        Server { name, description, has_custom_img, version, server_type, server_state }
    }

    pub fn get_server_state(&self) -> (r: &ServerState)
        ensures
            *r == self.server_state,
    {
        &self.server_state
    }

    pub fn set_server_state(&mut self, server_state: ServerState)
        ensures
            *final(self) == (Server { server_state, ..*old(self) }),
    {
        self.server_state = server_state;
    }
}

/// What a liveness query found out about a server.
#[derive(Debug, Clone)]
pub struct QueryResponse {
    pub online: bool,
    pub players_online: Option<u32>,
    pub players_max: Option<u32>,
    pub motd: Option<String>,
    pub version: Option<String>,
    pub error: Option<String>,
}

impl QueryResponse {
    /// The response for an unreachable server, carrying the error text.
    pub fn offline(error: String) -> (r: Self)
        ensures
            !r.online,
            r.players_online is None,
            r.players_max is None,
            r.motd is None,
            r.version is None,
            r.error == Some(error),
    {
        QueryResponse {
            online: false,
            players_online: None,
            players_max: None,
            motd: None,
            version: None,
            error: Some(error),
        }
    }

    /// The response for a reachable server.
    pub fn online(players_online: u32, players_max: u32, motd: String, version: String) -> (r:
        Self)
        ensures
            r.online,
            r.players_online == Some(players_online),
            r.players_max == Some(players_max),
            r.motd == Some(motd),
            r.version == Some(version),
            r.error is None,
    {
        QueryResponse {
            online: true,
            players_online: Some(players_online),
            players_max: Some(players_max),
            motd: Some(motd),
            version: Some(version),
            error: None,
        }
    }
}

/// Where and how to query a server.
#[derive(Debug)]
pub struct QueryConfig {
    pub host: String,
    pub port: u16,
    pub timeout_ms: u64,
}

impl Default for QueryConfig {
    /// The local default server on the standard port, five second timeout.
    fn default() -> (c: Self)
        ensures
            c.host@ == "127.0.0.1"@,
            c.port == 25565,
            c.timeout_ms == 5000,
    {
        QueryConfig { host: String::from_str("127.0.0.1"), port: 25565, timeout_ms: 5000 }
    }
}

} // verus!
