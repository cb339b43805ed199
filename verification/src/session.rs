//! One authenticated RCON session to one server.
//!
//! [`RconConnection`] is the session's state machine: it validates the
//! configuration, hands out encoded login and command packets, sequences
//! request ids, and interprets decoded response packets, including the
//! spurious "Keep Alive" responses some servers interleave with real
//! answers.  The TCP socket itself is owned and driven by the embedding
//! application, which feeds send/receive outcomes back into the machine.

use vstd::prelude::*;

use crate::codec::RconError;
use crate::codec::RconPacket;
use crate::codec::encode_packet;
use crate::codec::spec_encode_packet;
use crate::codec::spec_packet_size;
use crate::codec::RCON_TYPE_LOGIN;
use crate::codec::RCON_TYPE_COMMAND;
use crate::text::is_ascii_ws;
use crate::text::is_ws_char;
use crate::text::trim_spec;
use crate::text::lower_seq;
use crate::text::lower_char;
use crate::text::lemma_trim_start_bound;
use crate::text::lemma_trim_end_bound;
use crate::text::char_eq_lower;

verus! {

/// True when a response payload counts as a "Keep Alive": empty after
/// trimming, or equal to `"keep alive"` ignoring ASCII case.
pub open spec fn spec_is_keep_alive(s: Seq<char>) -> bool {
    trim_spec(s).len() == 0 || lower_seq(trim_spec(s)) == "keep alive"@
}

/// Decides whether a payload is a "Keep Alive" marker, specified against
/// [`spec_is_keep_alive`].
pub fn payload_is_keep_alive(s: &str) -> (r: bool)
    ensures
        r == spec_is_keep_alive(s@),
{
    let n = s.unicode_len();
    let mut a: usize = 0;
    while a < n && is_ws_char(s.get_char(a))
        invariant
            n == s@.len(),
            0 <= a <= n,
            forall|k: int| 0 <= k < a ==> is_ascii_ws(#[trigger] s@[k]),
        decreases n - a,
    {
        a = a + 1;
    }
    let mut b: usize = n;
    while b > a && is_ws_char(s.get_char(b - 1))
        invariant
            n == s@.len(),
            0 <= a <= b <= n,
            forall|k: int| b <= k < n ==> is_ascii_ws(#[trigger] s@[k]),
        decreases b,
    {
        b = b - 1;
    }
    proof {
        lemma_trim_start_bound(s@, a as int);
        let t = s@.subrange(a as int, n as int);
        assert(forall|k: int|
            b - a <= k < t.len() ==> is_ascii_ws(#[trigger] t[k]) == is_ascii_ws(
                s@[k + a],
            ) && is_ascii_ws(s@[k + a]));
        if b > a {
            assert(t[b - a - 1] == s@[b - 1]);
        }
        lemma_trim_end_bound(t, b - a);
        assert(trim_spec(s@) == t.subrange(0, b - a));
        assert(t.subrange(0, b - a) =~= s@.subrange(a as int, b as int));
    }
    let ghost trimmed = trim_spec(s@);
    if b == a {
        return true;
    }
    proof {
        reveal_strlit("keep alive");
        assert("keep alive"@.len() == 10);
        assert(trimmed.len() == b - a);
    }
    if b - a != 10 {
        proof {
            assert(lower_seq(trimmed).len() == trimmed.len());
        }
        return false;
    }
    let c0 = char_eq_lower(s.get_char(a), 'k');
    let c1 = char_eq_lower(s.get_char(a + 1), 'e');
    let c2 = char_eq_lower(s.get_char(a + 2), 'e');
    let c3 = char_eq_lower(s.get_char(a + 3), 'p');
    let c4 = char_eq_lower(s.get_char(a + 4), ' ');
    let c5 = char_eq_lower(s.get_char(a + 5), 'a');
    let c6 = char_eq_lower(s.get_char(a + 6), 'l');
    let c7 = char_eq_lower(s.get_char(a + 7), 'i');
    let c8 = char_eq_lower(s.get_char(a + 8), 'v');
    let c9 = char_eq_lower(s.get_char(a + 9), 'e');
    let r = c0 && c1 && c2 && c3 && c4 && c5 && c6 && c7 && c8 && c9;
    proof {
        reveal_strlit("keep alive");
        assert(trimmed[0] == s@[a as int] && trimmed[1] == s@[a + 1] && trimmed[2] == s@[a + 2]
            && trimmed[3] == s@[a + 3] && trimmed[4] == s@[a + 4] && trimmed[5] == s@[a + 5]
            && trimmed[6] == s@[a + 6] && trimmed[7] == s@[a + 7] && trimmed[8] == s@[a + 8]
            && trimmed[9] == s@[a + 9]);
        assert(forall|i: int| 0 <= i < 10 ==> lower_seq(trimmed)[i] == lower_char(trimmed[i]));
        if r {
            assert(lower_seq(trimmed) =~= "keep alive"@);
        } else {
            if lower_seq(trimmed) == "keep alive"@ {
                assert("keep alive"@[0] == 'k' && "keep alive"@[1] == 'e' && "keep alive"@[2]
                    == 'e' && "keep alive"@[3] == 'p' && "keep alive"@[4] == ' '
                    && "keep alive"@[5] == 'a' && "keep alive"@[6] == 'l' && "keep alive"@[7]
                    == 'i' && "keep alive"@[8] == 'v' && "keep alive"@[9] == 'e');
                assert(lower_char(trimmed[0]) == 'k' && lower_char(trimmed[1]) == 'e'
                    && lower_char(trimmed[2]) == 'e' && lower_char(trimmed[3]) == 'p'
                    && lower_char(trimmed[4]) == ' ' && lower_char(trimmed[5]) == 'a'
                    && lower_char(trimmed[6]) == 'l' && lower_char(trimmed[7]) == 'i'
                    && lower_char(trimmed[8]) == 'v' && lower_char(trimmed[9]) == 'e');
                assert(false);
            }
        }
    }
    r
}

/// State of one RCON connection to one server: the configured endpoint and
/// password, the request-id sequence, and the authentication and liveness
/// flags.  The socket itself lives with the embedding application; its
/// presence is tracked by `has_stream`.
pub struct RconConnection {
    pub host: String,
    pub port: u16,
    pub password: String,
    pub request_id: i32,
    pub authenticated: bool,
    pub has_stream: bool,
    pub connection_lost: bool,
}

/// What to do next after interpreting the first response to a command.
pub enum ResponseStep {
    /// The response matched the request id; its payload is the answer.
    Done(String),
    /// A "Keep Alive" response arrived instead: read one more packet.
    ReadAgain,
    /// The response id did not match and this was no "Keep Alive".
    Failed(RconError),
}

impl RconConnection {
    /// Well-formedness: request ids start at 1 and never go below it.
    pub open spec fn wf(self) -> bool {
        self.request_id >= 1
    }

    /// A session is connected when a socket is attached, authentication
    /// succeeded and the connection has not been lost.
    pub open spec fn spec_is_connected(self) -> bool {
        self.has_stream && self.authenticated && !self.connection_lost
    }

    /// A fresh, unconnected session for the given endpoint.
    pub fn new(host: String, port: u16, password: String) -> (c: Self)
        ensures
            c.wf(),
            c.host@ == host@,
            c.port == port,
            c.password@ == password@,
            c.request_id == 1,
            !c.authenticated,
            !c.has_stream,
            !c.connection_lost,
            !c.spec_is_connected(),
    {
        RconConnection {
            host,
            port,
            password,
            request_id: 1,
            authenticated: false,
            has_stream: false,
            connection_lost: false,
        }
    }

    pub fn is_connected(&self) -> (r: bool)
        ensures
            r == self.spec_is_connected(),
    {
        self.has_stream && self.authenticated && !self.connection_lost
    }

    /// Validates the endpoint before any connection attempt: the host must
    /// be non-empty and the port non-zero.
    pub fn connect_precheck(&self) -> (r: Result<(), RconError>)
        ensures
            r is Ok <==> self.host@.len() > 0 && self.port != 0,
            self.host@.len() == 0 ==> (r matches Err(e) && e matches RconError::ConnectionFailed(m)
                && m@ == "Host cannot be empty"@),
            self.host@.len() > 0 && self.port == 0 ==> (r matches Err(e) && e
                matches RconError::ConnectionFailed(m) && m@ == "Port cannot be zero"@),
    {
        if self.host.unicode_len() == 0 {
            Err(RconError::ConnectionFailed(String::from_str("Host cannot be empty")))
        } else if self.port == 0 {
            Err(RconError::ConnectionFailed(String::from_str("Port cannot be zero")))
        } else {
            Ok(())
        }
    }

    /// The application has opened the TCP stream for this session.
    pub fn stream_opened(&mut self)
        ensures
            *final(self) == (RconConnection {
                has_stream: true,
                connection_lost: false,
                ..*old(self)
            }),
    {
        self.has_stream = true;
        self.connection_lost = false;
    }

    /// Records an I/O failure: the connection is considered lost and the
    /// error is passed through unchanged.
    pub fn mark_lost(&mut self, e: RconError) -> (r: RconError)
        ensures
            *final(self) == (RconConnection { connection_lost: true, ..*old(self) }),
            !final(self).spec_is_connected(),
            r == e,
    {
        self.connection_lost = true;
        e
    }

    /// Allocates the request id for the login exchange and builds the login
    /// packet carrying the password.
    pub fn begin_auth(&mut self) -> (r: Result<(i32, Vec<u8>), RconError>)
        requires
            old(self).wf(),
            old(self).request_id < i32::MAX,
            spec_packet_size(old(self).password@) <= i32::MAX,
        ensures
            final(self).wf(),
            !old(self).has_stream ==> (r matches Err(e) && e == RconError::NotConnected
                && *final(self) == *old(self)),
            old(self).has_stream ==> (r matches Ok(p) && p.0 == old(self).request_id && p.1@
                == spec_encode_packet(old(self).request_id, RCON_TYPE_LOGIN, old(self).password@)
                && *final(self) == (RconConnection {
                request_id: (old(self).request_id + 1) as i32,
                ..*old(self)
            })),
    {
        if !self.has_stream {
            return Err(RconError::NotConnected);
        }
        let auth_id = self.request_id;
        self.request_id = self.request_id + 1;
        let bytes = encode_packet(auth_id, RCON_TYPE_LOGIN, self.password.as_str());
        Ok((auth_id, bytes))
    }

    /// Interprets the authentication response.  The server signals a
    /// rejected password by echoing request id `-1`; any id other than the
    /// one sent is equally a failure.  On failure the session is marked
    /// lost, so it no longer reports as connected.
    pub fn finish_auth(&mut self, response: &RconPacket, auth_id: i32) -> (r: Result<
        (),
        RconError,
    >)
        ensures
            r is Ok <==> (response.request_id == auth_id && response.request_id != -1),
            r is Ok ==> *final(self) == (RconConnection { authenticated: true, ..*old(self) }),
            r is Err ==> (r matches Err(e) && e == RconError::AuthenticationFailed && *final(self)
                == (RconConnection { connection_lost: true, ..*old(self) })
                && !final(self).spec_is_connected()),
    {
        if response.request_id != auth_id {
            self.connection_lost = true;
            return Err(RconError::AuthenticationFailed);
        }
        if response.request_id == -1 {
            self.connection_lost = true;
            return Err(RconError::AuthenticationFailed);
        }
        self.authenticated = true;
        Ok(())
    }

    /// Allocates the request id for a command and builds its packet.
    /// Without a live, authenticated session this refuses immediately with
    /// [`RconError::NotConnected`] and no packet is produced, so no I/O can
    /// be attempted.
    pub fn begin_command(&mut self, command: &str) -> (r: Result<(i32, Vec<u8>), RconError>)
        requires
            old(self).wf(),
            old(self).request_id < i32::MAX,
            spec_packet_size(command@) <= i32::MAX,
        ensures
            final(self).wf(),
            !old(self).spec_is_connected() ==> (r matches Err(e) && e == RconError::NotConnected
                && *final(self) == *old(self)),
            old(self).spec_is_connected() ==> (r matches Ok(p) && p.0 == old(self).request_id
                && p.1@ == spec_encode_packet(old(self).request_id, RCON_TYPE_COMMAND, command@)
                && *final(self) == (RconConnection {
                request_id: (old(self).request_id + 1) as i32,
                ..*old(self)
            })),
    {
        if !self.is_connected() {
            return Err(RconError::NotConnected);
        }
        let cmd_id = self.request_id;
        self.request_id = self.request_id + 1;
        let bytes = encode_packet(cmd_id, RCON_TYPE_COMMAND, command);
        Ok((cmd_id, bytes))
    }

    /// Interprets the first response to a command: a matching request id
    /// carries the answer; a mismatching "Keep Alive" response asks for one
    /// more read; anything else is an invalid response.
    pub fn on_response(&self, cmd_id: i32, response: &RconPacket) -> (s: ResponseStep)
        ensures
            response.request_id == cmd_id ==> (s matches ResponseStep::Done(p) && p@
                == response.payload@),
            response.request_id != cmd_id && spec_is_keep_alive(response.payload@) ==> s
                matches ResponseStep::ReadAgain,
            response.request_id != cmd_id && !spec_is_keep_alive(response.payload@) ==> (s
                matches ResponseStep::Failed(e) && e == RconError::InvalidResponse),
    {
        if response.request_id == cmd_id {
            return ResponseStep::Done(response.payload.clone());
        }
        if payload_is_keep_alive(response.payload.as_str()) {
            ResponseStep::ReadAgain
        } else {
            ResponseStep::Failed(RconError::InvalidResponse)
        }
    }

    /// Interprets the packet read after a "Keep Alive": only a matching
    /// request id yields the answer; anything else is an invalid response.
    pub fn on_second_response(&self, cmd_id: i32, response: &RconPacket) -> (r: Result<
        String,
        RconError,
    >)
        ensures
            response.request_id == cmd_id ==> (r matches Ok(p) && p@ == response.payload@),
            response.request_id != cmd_id ==> (r matches Err(e) && e
                == RconError::InvalidResponse),
    {
        if response.request_id == cmd_id {
            Ok(response.payload.clone())
        } else {
            Err(RconError::InvalidResponse)
        }
    }

    /// Tears the session down: the socket is gone, authentication is void
    /// and the connection counts as lost.  Idempotent.
    pub fn disconnect(&mut self)
        ensures
            *final(self) == (RconConnection {
                has_stream: false,
                authenticated: false,
                connection_lost: true,
                ..*old(self)
            }),
            !final(self).spec_is_connected(),
    {
        self.has_stream = false;
        self.authenticated = false;
        self.connection_lost = true;
    }
}

} // verus!
