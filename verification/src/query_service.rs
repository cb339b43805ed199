//! The UDP query client's verifiable core: its configuration and the
//! handshake and query packets of the Minecraft Query protocol.  The
//! sockets themselves are driven by the embedding application.

use vstd::prelude::*;

use crate::models::QueryConfig;

verus! {

/// The big-endian bytes of `x`.
pub open spec fn u32_be_bytes(x: u32) -> Seq<u8> {
    seq![
        ((x >> 24) & 0xff) as u8,
        ((x >> 16) & 0xff) as u8,
        ((x >> 8) & 0xff) as u8,
        (x & 0xff) as u8,
    ]
}

/// A query client for one server.
pub struct QueryService {
    pub config: QueryConfig,
}

impl QueryService {
    pub fn new(config: QueryConfig) -> (s: Self)
        ensures
            s.config == config,
    {
        QueryService { config }
    }

    /// A client with the default configuration.
    pub fn with_default() -> (s: Self)
        ensures
            s.config.host@ == "127.0.0.1"@,
            s.config.port == 25565,
            s.config.timeout_ms == 5000,
    {
        QueryService::new(QueryConfig::default())
    }

    /// The handshake packet: the protocol magic, the handshake type and
    /// the session id in big-endian order.
    pub fn create_handshake_packet(session_id: u32) -> (p: Vec<u8>)
        ensures
            p@ == seq![0xFEu8, 0xFDu8, 0x09u8] + u32_be_bytes(session_id),
    {
        let mut packet: Vec<u8> = Vec::new();
        packet.push(0xFE);
        packet.push(0xFD);
        packet.push(0x09);
        packet.push(((session_id >> 24) & 0xff) as u8);
        packet.push(((session_id >> 16) & 0xff) as u8);
        packet.push(((session_id >> 8) & 0xff) as u8);
        packet.push((session_id & 0xff) as u8);
        proof {
            assert(packet@ =~= seq![0xFEu8, 0xFDu8, 0x09u8] + u32_be_bytes(session_id));
        }
        packet
    }

    /// The full-stat query packet: the protocol magic, the query type, the
    /// session id and the challenge token, both big-endian.
    pub fn create_query_packet(session_id: u32, challenge_token: u32) -> (p: Vec<u8>)
        ensures
            p@ == seq![0xFEu8, 0xFDu8, 0x00u8] + u32_be_bytes(session_id) + u32_be_bytes(
                challenge_token,
            ),
    {
        let mut packet: Vec<u8> = Vec::new();
        packet.push(0xFE);
        packet.push(0xFD);
        packet.push(0x00);
        packet.push(((session_id >> 24) & 0xff) as u8);
        packet.push(((session_id >> 16) & 0xff) as u8);
        packet.push(((session_id >> 8) & 0xff) as u8);
        packet.push((session_id & 0xff) as u8);
        packet.push(((challenge_token >> 24) & 0xff) as u8);
        packet.push(((challenge_token >> 16) & 0xff) as u8);
        packet.push(((challenge_token >> 8) & 0xff) as u8);
        packet.push((challenge_token & 0xff) as u8);
        proof {
            assert(packet@ =~= seq![0xFEu8, 0xFDu8, 0x00u8] + u32_be_bytes(session_id)
                + u32_be_bytes(challenge_token));
        }
        packet
    }

    pub fn set_host(&mut self, host: String)
        ensures
            final(self).config.host == host,
            final(self).config.port == old(self).config.port,
            final(self).config.timeout_ms == old(self).config.timeout_ms,
    {
        self.config.host = host;
    }

    pub fn set_port(&mut self, port: u16)
        ensures
            final(self).config.host == old(self).config.host,
            final(self).config.port == port,
            final(self).config.timeout_ms == old(self).config.timeout_ms,
    {
        self.config.port = port;
    }

    pub fn set_timeout(&mut self, timeout_ms: u64)
        ensures
            final(self).config.host == old(self).config.host,
            final(self).config.port == old(self).config.port,
            final(self).config.timeout_ms == timeout_ms,
    {
        self.config.timeout_ms = timeout_ms;
    }
}

} // verus!
