//! The per-server RCON event log.
//!
//! [`RconLogger`] collects structured entries — a level tag and a message —
//! for every connection, authentication, command, heartbeat and
//! reconnection event.  The embedding application drains the entries and
//! appends them, timestamped, to the server's log file.

use vstd::prelude::*;
use vstd::utf8::encode_utf8;

use crate::text::dec_digits;
use crate::text::u64_to_string;

verus! {

/// One log line: a level tag and the message.
#[derive(Debug)]
pub struct LogEntry {
    pub level: String,
    pub message: String,
}

/// The structured event log of one server's RCON traffic.
#[derive(Debug)]
pub struct RconLogger {
    pub server_name: String,
    pub entries: Vec<LogEntry>,
}

fn msg2(a: &str, b: &str) -> (r: String)
    ensures
        r@ == a@ + b@,
{
    String::from_str(a).concat(b)
}

fn msg3(a: &str, b: &str, c: &str) -> (r: String)
    ensures
        r@ == a@ + b@ + c@,
{
    String::from_str(a).concat(b).concat(c)
}

fn msg4(a: &str, b: &str, c: &str, d: &str) -> (r: String)
    ensures
        r@ == a@ + b@ + c@ + d@,
{
    String::from_str(a).concat(b).concat(c).concat(d)
}

impl RconLogger {
    /// An empty log for one server.
    pub fn new(server_name: String) -> (l: Self)
        ensures
            l.server_name == server_name,
            l.entries@ == Seq::<LogEntry>::empty(),
    {
        RconLogger { server_name, entries: Vec::new() }
    }

    /// Appends one entry.
    fn push_entry(&mut self, level: String, message: String)
        ensures
            final(self).server_name == old(self).server_name,
            final(self).entries@ == old(self).entries@.push(LogEntry { level, message }),
    {
        self.entries.push(LogEntry { level, message });
    }

    pub fn log_connection(&mut self, host: &str, port: u16)
        ensures
            final(self).server_name == old(self).server_name,
            final(self).entries@ == old(self).entries@.push(final(self).entries@.last()),
            final(self).entries@.last().level@ == "CONNECTION"@,
            final(self).entries@.last().message@ == "Connecting to RCON at "@ + host@ + ":"@
                + dec_digits(port as nat),
    {
        let port_str = u64_to_string(port as u64);
        let message = msg4("Connecting to RCON at ", host, ":", port_str.as_str());
        self.push_entry(String::from_str("CONNECTION"), message);
    }

    pub fn log_connection_success(&mut self)
        ensures
            final(self).server_name == old(self).server_name,
            final(self).entries@ == old(self).entries@.push(final(self).entries@.last()),
            final(self).entries@.last().level@ == "CONNECTION"@,
            final(self).entries@.last().message@ == "RCON connection established successfully"@,
    {
        self.push_entry(
            String::from_str("CONNECTION"),
            String::from_str("RCON connection established successfully"),
        );
    }

    pub fn log_connection_failed(&mut self, error: &str)
        ensures
            final(self).server_name == old(self).server_name,
            final(self).entries@ == old(self).entries@.push(final(self).entries@.last()),
            final(self).entries@.last().level@ == "ERROR"@,
            final(self).entries@.last().message@ == "RCON connection failed: "@ + error@,
    {
        let message = msg2("RCON connection failed: ", error);
        self.push_entry(String::from_str("ERROR"), message);
    }

    /// Records an authentication attempt; only the password's length is
    /// logged, never the password.
    pub fn log_authentication(&mut self, password: &str)
        ensures
            final(self).server_name == old(self).server_name,
            final(self).entries@ == old(self).entries@.push(final(self).entries@.last()),
            final(self).entries@.last().level@ == "AUTH"@,
            final(self).entries@.last().message@ == "Attempting authentication (password length: "@
                + dec_digits(encode_utf8(password@).len()) + ")"@,
    {
        let len_str = u64_to_string(password.as_bytes_vec().len() as u64);
        let message = msg3("Attempting authentication (password length: ", len_str.as_str(), ")");
        self.push_entry(String::from_str("AUTH"), message);
    }

    pub fn log_authentication_success(&mut self)
        ensures
            final(self).server_name == old(self).server_name,
            final(self).entries@ == old(self).entries@.push(final(self).entries@.last()),
            final(self).entries@.last().level@ == "AUTH"@,
            final(self).entries@.last().message@ == "RCON authentication successful"@,
    {
        self.push_entry(
            String::from_str("AUTH"),
            String::from_str("RCON authentication successful"),
        );
    }

    pub fn log_authentication_failed(&mut self, error: &str)
        ensures
            final(self).server_name == old(self).server_name,
            final(self).entries@ == old(self).entries@.push(final(self).entries@.last()),
            final(self).entries@.last().level@ == "ERROR"@,
            final(self).entries@.last().message@ == "RCON authentication failed: "@ + error@,
    {
        let message = msg2("RCON authentication failed: ", error);
        self.push_entry(String::from_str("ERROR"), message);
    }

    pub fn log_command(&mut self, command: &str, is_heartbeat: bool)
        ensures
            final(self).server_name == old(self).server_name,
            final(self).entries@ == old(self).entries@.push(final(self).entries@.last()),
            final(self).entries@.last().level@ == (if is_heartbeat {
                "HEARTBEAT"@
            } else {
                "COMMAND"@
            }),
            final(self).entries@.last().message@ == "Executing: "@ + command@,
    {
        let level = if is_heartbeat {
            String::from_str("HEARTBEAT")
        } else {
            String::from_str("COMMAND")
        };
        let message = msg2("Executing: ", command);
        self.push_entry(level, message);
    }

    pub fn log_command_response(&mut self, command: &str, response: &str, is_heartbeat: bool)
        ensures
            final(self).server_name == old(self).server_name,
            final(self).entries@ == old(self).entries@.push(final(self).entries@.last()),
            final(self).entries@.last().level@ == (if is_heartbeat {
                "HEARTBEAT"@
            } else {
                "COMMAND"@
            }),
            final(self).entries@.last().message@ == "Response for '"@ + command@ + "': "@
                + response@,
    {
        let level = if is_heartbeat {
            String::from_str("HEARTBEAT")
        } else {
            String::from_str("COMMAND")
        };
        let message = msg4("Response for '", command, "': ", response);
        self.push_entry(level, message);
    }

    pub fn log_command_error(&mut self, command: &str, error: &str, is_heartbeat: bool)
        ensures
            final(self).server_name == old(self).server_name,
            final(self).entries@ == old(self).entries@.push(final(self).entries@.last()),
            final(self).entries@.last().level@ == (if is_heartbeat {
                "HEARTBEAT_ERROR"@
            } else {
                "COMMAND_ERROR"@
            }),
            final(self).entries@.last().message@ == "Error executing '"@ + command@ + "': "@
                + error@,
    {
        let level = if is_heartbeat {
            String::from_str("HEARTBEAT_ERROR")
        } else {
            String::from_str("COMMAND_ERROR")
        };
        let message = msg4("Error executing '", command, "': ", error);
        self.push_entry(level, message);
    }

    pub fn log_heartbeat_start(&mut self)
        ensures
            final(self).server_name == old(self).server_name,
            final(self).entries@ == old(self).entries@.push(final(self).entries@.last()),
            final(self).entries@.last().level@ == "HEARTBEAT"@,
            final(self).entries@.last().message@ == "Starting heartbeat system"@,
    {
        self.push_entry(
            String::from_str("HEARTBEAT"),
            String::from_str("Starting heartbeat system"),
        );
    }

    pub fn log_heartbeat_stop(&mut self)
        ensures
            final(self).server_name == old(self).server_name,
            final(self).entries@ == old(self).entries@.push(final(self).entries@.last()),
            final(self).entries@.last().level@ == "HEARTBEAT"@,
            final(self).entries@.last().message@ == "Stopping heartbeat system"@,
    {
        self.push_entry(
            String::from_str("HEARTBEAT"),
            String::from_str("Stopping heartbeat system"),
        );
    }

    pub fn log_disconnection(&mut self, reason: &str)
        ensures
            final(self).server_name == old(self).server_name,
            final(self).entries@ == old(self).entries@.push(final(self).entries@.last()),
            final(self).entries@.last().level@ == "DISCONNECTION"@,
            final(self).entries@.last().message@ == "RCON disconnected: "@ + reason@,
    {
        let message = msg2("RCON disconnected: ", reason);
        self.push_entry(String::from_str("DISCONNECTION"), message);
    }

    pub fn log_reconnection_attempt(&mut self, attempt: u32)
        ensures
            final(self).server_name == old(self).server_name,
            final(self).entries@ == old(self).entries@.push(final(self).entries@.last()),
            final(self).entries@.last().level@ == "RECONNECTION"@,
            final(self).entries@.last().message@ == "Attempting reconnection #"@ + dec_digits(
                attempt as nat,
            ),
    {
        let attempt_str = u64_to_string(attempt as u64);
        let message = msg2("Attempting reconnection #", attempt_str.as_str());
        self.push_entry(String::from_str("RECONNECTION"), message);
    }

    pub fn log_reconnection_success(&mut self)
        ensures
            final(self).server_name == old(self).server_name,
            final(self).entries@ == old(self).entries@.push(final(self).entries@.last()),
            final(self).entries@.last().level@ == "RECONNECTION"@,
            final(self).entries@.last().message@ == "Reconnection successful"@,
    {
        self.push_entry(
            String::from_str("RECONNECTION"),
            String::from_str("Reconnection successful"),
        );
    }

    pub fn log_reconnection_failed(&mut self, error: &str)
        ensures
            final(self).server_name == old(self).server_name,
            final(self).entries@ == old(self).entries@.push(final(self).entries@.last()),
            final(self).entries@.last().level@ == "ERROR"@,
            final(self).entries@.last().message@ == "Reconnection failed: "@ + error@,
    {
        let message = msg2("Reconnection failed: ", error);
        self.push_entry(String::from_str("ERROR"), message);
    }

    pub fn log_info(&mut self, message: &str)
        ensures
            final(self).server_name == old(self).server_name,
            final(self).entries@ == old(self).entries@.push(final(self).entries@.last()),
            final(self).entries@.last().level@ == "INFO"@,
            final(self).entries@.last().message@ == message@,
    {
        self.push_entry(String::from_str("INFO"), String::from_str(message));
    }

    pub fn log_warning(&mut self, message: &str)
        ensures
            final(self).server_name == old(self).server_name,
            final(self).entries@ == old(self).entries@.push(final(self).entries@.last()),
            final(self).entries@.last().level@ == "WARN"@,
            final(self).entries@.last().message@ == message@,
    {
        self.push_entry(String::from_str("WARN"), String::from_str(message));
    }

    pub fn log_error(&mut self, message: &str)
        ensures
            final(self).server_name == old(self).server_name,
            final(self).entries@ == old(self).entries@.push(final(self).entries@.last()),
            final(self).entries@.last().level@ == "ERROR"@,
            final(self).entries@.last().message@ == message@,
    {
        self.push_entry(String::from_str("ERROR"), String::from_str(message));
    }

    pub fn log_debug(&mut self, message: &str)
        ensures
            final(self).server_name == old(self).server_name,
            final(self).entries@ == old(self).entries@.push(final(self).entries@.last()),
            final(self).entries@.last().level@ == "DEBUG"@,
            final(self).entries@.last().message@ == message@,
    {
        self.push_entry(String::from_str("DEBUG"), String::from_str(message));
    }

    /// Hands the collected entries to the caller and clears the log.
    pub fn drain_entries(&mut self) -> (r: Vec<LogEntry>)
        ensures
            final(self).server_name == old(self).server_name,
            final(self).entries@ == Seq::<LogEntry>::empty(),
            r@ == old(self).entries@,
    {
        let mut taken: Vec<LogEntry> = Vec::new();
        core::mem::swap(&mut taken, &mut self.entries);
        taken
    }
}

} // verus!
