//! The polling liveness monitor.
//!
//! Each monitored server is either `Offline` or `Online`.  A background
//! task (run by the embedding application) polls every fifteen seconds:
//! offline servers get a connection attempt — unless one is already in
//! flight or the last one is too recent — and online servers are demoted
//! when their session is gone.  Status changes are handed back as events
//! for the application to publish.

use vstd::prelude::*;

use crate::manager::RconManager;
use crate::strmap::StrMap;

verus! {

/// How long the monitor waits between polls, and the cool-down after a
/// failed connection attempt.
pub const MONITOR_POLL_INTERVAL_MS: u64 = 15000;

/// The liveness status of a monitored server.
#[derive(Debug, Clone, Copy, PartialEq, Eq, Structural)]
pub enum ServerStatus {
    Offline,
    Online,
}

/// A status transition, ready to be published to the event sink.
#[derive(Debug, Clone)]
pub struct ServerStatusEvent {
    pub server_name: String,
    pub old_status: ServerStatus,
    pub new_status: ServerStatus,
    pub timestamp: u64,
}

/// Per-server monitor state.
#[derive(Debug, Clone, Copy)]
pub struct ServerState {
    pub status: ServerStatus,
    pub is_connecting: bool,
    pub last_connection_attempt: Option<u64>,
}

impl ServerState {
    /// A freshly monitored server: offline, no attempt made yet.
    pub fn new() -> (s: Self)
        ensures
            s.status is Offline,
            !s.is_connecting,
            s.last_connection_attempt is None,
    {
        ServerState { status: ServerStatus::Offline, is_connecting: false, last_connection_attempt: None }
    }
}

/// Whether a poll tick should try to connect this server: only when it is
/// offline, no attempt is in flight, and the previous attempt (if any) is
/// at least a poll interval old.
pub open spec fn spec_should_attempt(st: ServerState, now_ms: u64) -> bool {
    &&& st.status is Offline
    &&& !st.is_connecting
    &&& (st.last_connection_attempt is None || (st.last_connection_attempt)->Some_0
        + MONITOR_POLL_INTERVAL_MS <= now_ms)
}

/// What a poll tick does for one server.
pub enum TickStep {
    /// Try to connect (the state now shows an attempt in flight).
    AttemptConnect,
    /// No attempt due: check whether an online server is still connected.
    CheckOnline,
    /// The server is not monitored.
    NotMonitored,
}

/// The liveness monitor: per-server state, polled by the application.
pub struct SimpleRconMonitor {
    pub servers: StrMap<ServerState>,
}

impl SimpleRconMonitor {
    pub open spec fn wf(&self) -> bool {
        self.servers.wf()
    }

    /// A monitor watching nothing.
    pub fn new() -> (m: Self)
        ensures
            m.wf(),
            m.servers@ == Map::<Seq<char>, ServerState>::empty(),
    {
        SimpleRconMonitor { servers: StrMap::new() }
    }

    /// Starts monitoring `server_name`, beginning from `Offline`.
    pub fn start_monitoring(&mut self, server_name: String)
        requires
            old(self).wf(),
        ensures
            final(self).wf(),
            final(self).servers@ == old(self).servers@.insert(
                server_name@,
                (ServerState {
                    status: ServerStatus::Offline,
                    is_connecting: false,
                    last_connection_attempt: None,
                }),
            ),
    {
        self.servers.insert(server_name, ServerState::new());
    }

    /// Stops monitoring `server_name`: its tracked state is removed and,
    /// if an RCON session is live, it is disconnected, so the registry no
    /// longer reports the server as connected.
    pub fn stop_monitoring(&mut self, server_name: &str, rcon: &mut RconManager)
        requires
            old(self).wf(),
            old(rcon).wf(),
        ensures
            final(self).wf(),
            final(rcon).wf(),
            final(self).servers@ == old(self).servers@.remove(server_name@),
            !final(rcon).spec_is_connected(server_name@),
            !old(rcon).spec_is_connected(server_name@) ==> *final(rcon) == *old(rcon),
    {
        let _ = self.servers.remove(server_name);
        if rcon.is_connected(server_name) {
            rcon.disconnect(server_name);
        }
    }

    /// Forces a status for `server_name` (used when the user starts or
    /// stops the server), bypassing the poll cadence.  An event is handed
    /// back only when the status actually changes; an unmonitored server
    /// is left alone.
    pub fn update_server_status(&mut self, server_name: &str, status: ServerStatus, now_ms: u64)
        -> (ev: Option<ServerStatusEvent>)
        requires
            old(self).wf(),
        ensures
            final(self).wf(),
            !old(self).servers@.contains_key(server_name@) ==> *final(self) == *old(self) && ev
                is None,
            old(self).servers@.contains_key(server_name@) && old(
                self,
            ).servers@[server_name@].status == status ==> *final(self) == *old(self) && ev
                is None,
            old(self).servers@.contains_key(server_name@) && old(
                self,
            ).servers@[server_name@].status != status ==> (final(self).servers@ == old(
                self,
            ).servers@.insert(
                server_name@,
                (ServerState { status, ..old(self).servers@[server_name@] }),
            ) && (ev matches Some(e) && e.server_name@ == server_name@ && e.old_status == old(
                self,
            ).servers@[server_name@].status && e.new_status == status && e.timestamp == now_ms)),
    {
        let current = match self.servers.get(server_name) {
            None => {
                return None;
            },
            Some(st) => *st,
        };
        let old_status = current.status;
        if old_status == status {
            return None;
        }
        let _ = self.servers.remove(server_name);
        self.servers.insert(server_name.to_owned(), ServerState { status, ..current });
        proof {
            assert(self.servers@ =~= old(self).servers@.insert(
                server_name@,
                (ServerState { status, ..old(self).servers@[server_name@] }),
            ));
        }
        Some(
            ServerStatusEvent {
                server_name: server_name.to_owned(),
                old_status,
                new_status: status,
                timestamp: now_ms,
            },
        )
    }

    /// The current status of `server_name`; an unmonitored server reads
    /// as `Offline`.
    pub fn get_server_status(&self, server_name: &str) -> (s: ServerStatus)
        requires
            self.wf(),
        ensures
            self.servers@.contains_key(server_name@) ==> s == self.servers@[server_name@].status,
            !self.servers@.contains_key(server_name@) ==> s is Offline,
    {
        match self.servers.get(server_name) {
            Some(st) => st.status,
            None => ServerStatus::Offline,
        }
    }

    /// Every monitored server with its status.
    pub fn get_all_statuses(&self) -> (r: Vec<(String, ServerStatus)>)
        requires
            self.wf(),
        ensures
            forall|j: int|
                0 <= j < r@.len() ==> self.servers@.contains_key((#[trigger] r@[j]).0@)
                    && r@[j].1 == self.servers@[r@[j].0@].status,
            forall|k: Seq<char>|
                #[trigger] self.servers@.contains_key(k) ==> exists|j: int|
                    0 <= j < r@.len() && (#[trigger] r@[j]).0@ == k,
    {
        let n = self.servers.len();
        let mut r: Vec<(String, ServerStatus)> = Vec::new();
        let mut i: usize = 0;
        while i < n
            invariant
                self.wf(),
                n == self.servers.spec_len(),
                0 <= i <= n,
                forall|j: int|
                    0 <= j < r@.len() ==> self.servers@.contains_key((#[trigger] r@[j]).0@)
                        && r@[j].1 == self.servers@[r@[j].0@].status,
                forall|p: int|
                    0 <= p < i ==> exists|j: int|
                        0 <= j < r@.len() && (#[trigger] r@[j]).0@
                            == #[trigger] self.servers.spec_key_at(p),
            decreases n - i,
        {
            let ghost r0 = r@;
            let k = self.servers.key_at(i);
            let st = self.servers.value_at(i);
            r.push((k.clone(), st.status));
            proof {
                self.servers.lemma_at(i as int);
                assert forall|p: int| 0 <= p < i + 1 implies exists|j: int|
                    0 <= j < r@.len() && (#[trigger] r@[j]).0@ == #[trigger] self.servers.spec_key_at(
                        p,
                    ) by {
                    if p < i {
                        let j = choose|j: int|
                            0 <= j < r0.len() && (#[trigger] r0[j]).0@
                                == #[trigger] self.servers.spec_key_at(p);
                        assert((r@[j]).0@ == self.servers.spec_key_at(p));
                    } else {
                        assert((r@[r@.len() - 1]).0@ == self.servers.spec_key_at(p));
                    }
                }
            }
            i = i + 1;
        }
        proof {
            assert forall|k: Seq<char>| #[trigger] self.servers@.contains_key(k) implies exists|
                j: int,
            | 0 <= j < r@.len() && (#[trigger] r@[j]).0@ == k by {
                self.servers.lemma_keys_covered(k);
            }
        }
        r
    }

    /// The names of all monitored servers, for the poll loop.
    pub fn monitored_servers(&self) -> (r: Vec<String>)
        requires
            self.wf(),
        ensures
            forall|j: int| 0 <= j < r@.len() ==> self.servers@.contains_key(#[trigger] r@[j]@),
            forall|k: Seq<char>|
                #[trigger] self.servers@.contains_key(k) ==> exists|j: int|
                    0 <= j < r@.len() && #[trigger] r@[j]@ == k,
    {
        let n = self.servers.len();
        let mut r: Vec<String> = Vec::new();
        let mut i: usize = 0;
        while i < n
            invariant
                self.wf(),
                n == self.servers.spec_len(),
                0 <= i <= n,
                forall|j: int| 0 <= j < r@.len() ==> self.servers@.contains_key(#[trigger] r@[j]@),
                forall|p: int|
                    0 <= p < i ==> exists|j: int|
                        0 <= j < r@.len() && #[trigger] r@[j]@
                            == #[trigger] self.servers.spec_key_at(p),
            decreases n - i,
        {
            let ghost r0 = r@;
            let k = self.servers.key_at(i);
            r.push(k.clone());
            proof {
                assert forall|p: int| 0 <= p < i + 1 implies exists|j: int|
                    0 <= j < r@.len() && #[trigger] r@[j]@ == #[trigger] self.servers.spec_key_at(
                        p,
                    ) by {
                    if p < i {
                        let j = choose|j: int|
                            0 <= j < r0.len() && #[trigger] r0[j]@
                                == #[trigger] self.servers.spec_key_at(p);
                        assert(r@[j]@ == self.servers.spec_key_at(p));
                    } else {
                        assert(r@[r@.len() - 1]@ == self.servers.spec_key_at(p));
                    }
                }
            }
            i = i + 1;
        }
        proof {
            assert forall|k: Seq<char>| #[trigger] self.servers@.contains_key(k) implies exists|
                j: int,
            | 0 <= j < r@.len() && #[trigger] r@[j]@ == k by {
                self.servers.lemma_keys_covered(k);
            }
        }
        r
    }

    /// One poll tick's decision for `server_name`.  A connection attempt
    /// is begun — and marked in flight with its start time — exactly when
    /// the server is monitored, offline, not already connecting, and the
    /// previous attempt is at least a poll interval old.
    pub fn tick_decision(&mut self, server_name: &str, now_ms: u64) -> (d: TickStep)
        requires
            old(self).wf(),
        ensures
            final(self).wf(),
            (d is AttemptConnect) <==> (old(self).servers@.contains_key(server_name@)
                && spec_should_attempt(old(self).servers@[server_name@], now_ms)),
            !old(self).servers@.contains_key(server_name@) ==> d is NotMonitored && *final(self)
                == *old(self),
            old(self).servers@.contains_key(server_name@) && !spec_should_attempt(
                old(self).servers@[server_name@],
                now_ms,
            ) ==> d is CheckOnline && *final(self) == *old(self),
            d is AttemptConnect ==> final(self).servers@ == old(self).servers@.insert(
                server_name@,
                (ServerState {
                    is_connecting: true,
                    last_connection_attempt: Some(now_ms),
                    ..old(self).servers@[server_name@]
                }),
            ),
    {
        let st = match self.servers.get(server_name) {
            None => {
                return TickStep::NotMonitored;
            },
            Some(st) => *st,
        };
        let attempt_due = match st.last_connection_attempt {
            None => true,
            Some(last) => last <= u64::MAX - MONITOR_POLL_INTERVAL_MS && last
                + MONITOR_POLL_INTERVAL_MS <= now_ms,
        };
        let should = match st.status {
            ServerStatus::Offline => !st.is_connecting && attempt_due,
            ServerStatus::Online => false,
        };
        if !should {
            return TickStep::CheckOnline;
        }
        let _ = self.servers.remove(server_name);
        self.servers.insert(
            server_name.to_owned(),
            ServerState { is_connecting: true, last_connection_attempt: Some(now_ms), ..st },
        );
        proof {
            assert(self.servers@ =~= old(self).servers@.insert(
                server_name@,
                (ServerState {
                    is_connecting: true,
                    last_connection_attempt: Some(now_ms),
                    ..old(self).servers@[server_name@]
                }),
            ));
        }
        TickStep::AttemptConnect
    }

    /// The outcome of the connection attempt a tick began.  Success on a
    /// server that was offline promotes it to `Online` and yields exactly
    /// one event; failure leaves it `Offline` with no event (repeated
    /// failed polls stay quiet).  Either way the in-flight mark is
    /// cleared.
    pub fn tick_connect_result(&mut self, server_name: &str, connected: bool, now_ms: u64) -> (ev:
        Option<ServerStatusEvent>)
        requires
            old(self).wf(),
        ensures
            final(self).wf(),
            !old(self).servers@.contains_key(server_name@) ==> *final(self) == *old(self) && ev
                is None,
            old(self).servers@.contains_key(server_name@) && connected && old(
                self,
            ).servers@[server_name@].status is Offline ==> (final(self).servers@ == old(
                self,
            ).servers@.insert(
                server_name@,
                (ServerState {
                    status: ServerStatus::Online,
                    is_connecting: false,
                    ..old(self).servers@[server_name@]
                }),
            ) && (ev matches Some(e) && e.server_name@ == server_name@ && e.old_status
                is Offline && e.new_status is Online && e.timestamp == now_ms)),
            old(self).servers@.contains_key(server_name@) && connected && old(
                self,
            ).servers@[server_name@].status is Online ==> (final(self).servers@ == old(
                self,
            ).servers@.insert(
                server_name@,
                (ServerState {
                    is_connecting: false,
                    ..old(self).servers@[server_name@]
                }),
            ) && ev is None),
            old(self).servers@.contains_key(server_name@) && !connected ==> (final(self).servers@ == old(self).servers@.insert(
                server_name@,
                (ServerState { is_connecting: false, ..old(self).servers@[server_name@] }),
            ) && ev is None && final(self).servers@[server_name@].status == old(
                self,
            ).servers@[server_name@].status),
    {
        let taken = self.servers.remove(server_name);
        match taken {
            None => None,
            Some(st) => {
                if connected {
                    let was_offline = match st.status {
                        ServerStatus::Offline => true,
                        ServerStatus::Online => false,
                    };
                    self.servers.insert(
                        server_name.to_owned(),
                        ServerState {
                            status: ServerStatus::Online,
                            is_connecting: false,
                            ..st
                        },
                    );
                    proof {
                        if old(self).servers@[server_name@].status is Online {
                            assert(self.servers@ =~= old(self).servers@.insert(
                                server_name@,
                                (ServerState {
                                    is_connecting: false,
                                    ..old(self).servers@[server_name@]
                                }),
                            ));
                        } else {
                            assert(self.servers@ =~= old(self).servers@.insert(
                                server_name@,
                                (ServerState {
                                    status: ServerStatus::Online,
                                    is_connecting: false,
                                    ..old(self).servers@[server_name@]
                                }),
                            ));
                        }
                    }
                    if was_offline {
                        Some(
                            ServerStatusEvent {
                                server_name: server_name.to_owned(),
                                old_status: ServerStatus::Offline,
                                new_status: ServerStatus::Online,
                                timestamp: now_ms,
                            },
                        )
                    } else {
                        None
                    }
                } else {
                    self.servers.insert(
                        server_name.to_owned(),
                        ServerState { is_connecting: false, ..st },
                    );
                    proof {
                        assert(self.servers@ =~= old(self).servers@.insert(
                            server_name@,
                            (ServerState {
                                is_connecting: false,
                                ..old(self).servers@[server_name@]
                            }),
                        ));
                    }
                    None
                }
            },
        }
    }

    /// The periodic check of a server that was not due for a connection
    /// attempt: an online server whose session is gone drops to `Offline`
    /// with exactly one event; anything else is left untouched.
    pub fn tick_online_check(&mut self, server_name: &str, still_connected: bool, now_ms: u64)
        -> (ev: Option<ServerStatusEvent>)
        requires
            old(self).wf(),
        ensures
            final(self).wf(),
            !(old(self).servers@.contains_key(server_name@) && old(
                self,
            ).servers@[server_name@].status is Online && !still_connected) ==> *final(self)
                == *old(self) && ev is None,
            old(self).servers@.contains_key(server_name@) && old(
                self,
            ).servers@[server_name@].status is Online && !still_connected ==> (final(self).servers@ == old(self).servers@.insert(
                server_name@,
                (ServerState {
                    status: ServerStatus::Offline,
                    ..old(self).servers@[server_name@]
                }),
            ) && (ev matches Some(e) && e.server_name@ == server_name@ && e.old_status is Online
                && e.new_status is Offline && e.timestamp == now_ms)),
    {
        if still_connected {
            return None;
        }
        let st = match self.servers.get(server_name) {
            None => {
                return None;
            },
            Some(st) => *st,
        };
        let was_online = match st.status {
            ServerStatus::Online => true,
            ServerStatus::Offline => false,
        };
        if !was_online {
            return None;
        }
        let _ = self.servers.remove(server_name);
        self.servers.insert(
            server_name.to_owned(),
            ServerState { status: ServerStatus::Offline, ..st },
        );
        proof {
            assert(self.servers@ =~= old(self).servers@.insert(
                server_name@,
                (ServerState {
                    status: ServerStatus::Offline,
                    ..old(self).servers@[server_name@]
                }),
            ));
        }
        Some(
            ServerStatusEvent {
                server_name: server_name.to_owned(),
                old_status: ServerStatus::Online,
                new_status: ServerStatus::Offline,
                timestamp: now_ms,
            },
        )
    }
}

/// Provisions the monitor's default RCON settings for `server_name` —
/// host `127.0.0.1`, port `25575`, password `minecraft` — unless a
/// configuration is already stored (an override is kept).
pub fn provision_default_config(rcon: &mut RconManager, server_name: &str)
    requires
        old(rcon).wf(),
    ensures
        final(rcon).wf(),
        final(rcon).configs@.contains_key(server_name@),
        old(rcon).configs@.contains_key(server_name@) ==> *final(rcon) == *old(rcon),
        !old(rcon).configs@.contains_key(server_name@) ==> (final(rcon).configs@ == old(
            rcon,
        ).configs@.insert(server_name@, final(rcon).configs@[server_name@]) && ({
            let c = final(rcon).configs@[server_name@];
            &&& c.host@ == "127.0.0.1"@
            &&& c.port == 25575
            &&& c.password@ == "minecraft"@
        }) && final(rcon).sessions == old(rcon).sessions && final(rcon).trackers == old(
            rcon,
        ).trackers && final(rcon).heartbeats == old(rcon).heartbeats),
{
    if !rcon.configs.contains_key(server_name) {
        rcon.add_server(
            server_name.to_owned(),
            crate::manager::RconConfig {
                host: String::from_str("127.0.0.1"),
                port: 25575,
                password: String::from_str("minecraft"),
            },
        );
    }
}

} // verus!
