//! The connection registry.
//!
//! [`RconManager`] owns, per server name, the connection settings, the live
//! session, a failure tracker consulted by the retry policy, and the
//! heartbeat supervisor.  Network operations are performed by the embedding
//! application; the registry's decisions — when to connect, when to retry,
//! what to surface — are step functions with contracts, driven by events
//! that report each operation's outcome.

use vstd::prelude::*;

use crate::codec::RconError;
use crate::session::RconConnection;
use crate::strmap::StrMap;
use crate::heartbeat::HeartbeatManager;
use crate::heartbeat::spec_saturating_inc;
use crate::text::contains_seq;
use crate::text::str_contains;

verus! {

/// Connection settings for one server.
#[derive(Debug)]
pub struct RconConfig {
    pub host: String,
    pub port: u16,
    pub password: String,
}

impl RconConfig {
    /// A field-for-field copy.
    pub fn duplicate(&self) -> (c: RconConfig)
        ensures
            c == *self,
    {
        RconConfig { host: self.host.clone(), port: self.port, password: self.password.clone() }
    }
}

impl Default for RconConfig {
    /// `localhost:25575` with an empty password.
    fn default() -> (c: Self)
        ensures
            c.host@ == "localhost"@,
            c.port == 25575,
            c.password@ == Seq::<char>::empty(),
    {
        RconConfig {
            host: String::from_str("localhost"),
            port: 25575,
            password: String::new(),
        }
    }
}

/// Per-server failure counters: reset on any successful command,
/// incremented on any failed one.
pub struct FailureTracker {
    pub consecutive_failures: u32,
    pub last_failure_time: Option<u64>,
    pub total_failures: u32,
}

impl Default for FailureTracker {
    /// No failures recorded.
    fn default() -> (t: Self)
        ensures
            t.consecutive_failures == 0,
            t.last_failure_time is None,
            t.total_failures == 0,
    {
        FailureTracker { consecutive_failures: 0, last_failure_time: None, total_failures: 0 }
    }
}

/// A tracker after one more failure at `now_ms`.
pub open spec fn spec_fail_track(t: FailureTracker, now_ms: u64) -> FailureTracker {
    FailureTracker {
        consecutive_failures: spec_saturating_inc(t.consecutive_failures),
        last_failure_time: Some(now_ms),
        total_failures: spec_saturating_inc(t.total_failures),
    }
}

/// The tracker under `k`, or a fresh one.
pub open spec fn spec_tracker_of(m: Map<Seq<char>, FailureTracker>, k: Seq<char>) -> FailureTracker {
    if m.contains_key(k) {
        m[k]
    } else {
        FailureTracker { consecutive_failures: 0, last_failure_time: None, total_failures: 0 }
    }
}

/// Which errors are worth one reconnect-and-retry: everything transient,
/// but never an authentication failure (a wrong password will not become
/// right), and an unclassified command failure only when its message shows
/// a known transient condition.
pub open spec fn spec_retryable(e: RconError) -> bool {
    match e {
        RconError::BufferError(_) => true,
        RconError::ServerClosedConnection => true,
        RconError::NetworkTimeout => true,
        RconError::ConnectionFailed(_) => true,
        RconError::InvalidResponse => true,
        RconError::NotConnected => true,
        RconError::CommandFailed(m) => contains_seq(m@, "failed to fill whole buffer"@)
            || contains_seq(m@, "Connection closed by server"@) || contains_seq(
            m@,
            "Connection reset"@,
        ),
        RconError::AuthenticationFailed => false,
    }
}

/// How a [`RconManager::connect_begin`] call proceeds.
pub enum ConnectBegin {
    /// A live, authenticated session already exists: nothing to do.
    AlreadyConnected,
    /// No configuration is stored for this server.
    NoConfig,
    /// Connect this fresh session (any stale one has been dropped).
    Attempt(RconConnection),
}

/// The registry: configurations, live sessions, failure trackers and the
/// heartbeat supervisor, keyed by server name.
pub struct RconManager {
    pub configs: StrMap<RconConfig>,
    pub sessions: StrMap<RconConnection>,
    pub trackers: StrMap<FailureTracker>,
    pub heartbeats: HeartbeatManager,
}

impl RconManager {
    /// Well-formedness of the registry and of every session held.
    pub open spec fn wf(&self) -> bool {
        &&& self.configs.wf()
        &&& self.sessions.wf()
        &&& self.trackers.wf()
        &&& self.heartbeats.wf()
        &&& forall|k: Seq<char>|
            #[trigger] self.sessions@.contains_key(k) ==> self.sessions@[k].wf()
    }

    /// A server counts as connected when it has a session that is live and
    /// authenticated.
    pub open spec fn spec_is_connected(&self, name: Seq<char>) -> bool {
        self.sessions@.contains_key(name) && self.sessions@[name].spec_is_connected()
    }

    /// An empty registry.
    pub fn new() -> (m: Self)
        ensures
            m.wf(),
            m.configs@ == Map::<Seq<char>, RconConfig>::empty(),
            m.sessions@ == Map::<Seq<char>, RconConnection>::empty(),
            m.trackers@ == Map::<Seq<char>, FailureTracker>::empty(),
            m.heartbeats.active@ == Map::<Seq<char>, crate::heartbeat::HeartbeatTicker>::empty(),
    {
        RconManager {
            configs: StrMap::new(),
            sessions: StrMap::new(),
            trackers: StrMap::new(),
            heartbeats: HeartbeatManager::new(),
        }
    }

    /// Stores (or overwrites) a server's connection settings.
    pub fn add_server(&mut self, name: String, config: RconConfig)
        requires
            old(self).wf(),
        ensures
            final(self).wf(),
            final(self).configs@ == old(self).configs@.insert(name@, config),
            final(self).sessions == old(self).sessions,
            final(self).trackers == old(self).trackers,
            final(self).heartbeats == old(self).heartbeats,
    {
        self.configs.insert(name, config);
    }

    /// Removes a server entirely: its heartbeat, configuration, failure
    /// tracker and session (if any) are all dropped.
    pub fn remove_server(&mut self, name: &str)
        requires
            old(self).wf(),
        ensures
            final(self).wf(),
            final(self).configs@ == old(self).configs@.remove(name@),
            final(self).sessions@ == old(self).sessions@.remove(name@),
            final(self).trackers@ == old(self).trackers@.remove(name@),
            final(self).heartbeats.active@ == old(self).heartbeats.active@.remove(name@),
            !final(self).spec_is_connected(name@),
    {
        self.heartbeats.stop_heartbeat(name);
        let _ = self.configs.remove(name);
        let _ = self.trackers.remove(name);
        self.remove_connection(name);
    }

    /// Whether a live, authenticated session exists for `name`.
    pub fn is_connected(&self, name: &str) -> (r: bool)
        requires
            self.wf(),
        ensures
            r == self.spec_is_connected(name@),
    {
        match self.sessions.get(name) {
            Some(conn) => conn.is_connected(),
            None => false,
        }
    }

    /// Begins a connection attempt for `name`.  With no stored
    /// configuration this refuses; with a live session it succeeds at once
    /// and the registry is untouched, so no second network connection is
    /// ever made for an already-connected server; otherwise any stale
    /// session is dropped and a fresh one, built from the stored
    /// configuration, is handed back for the application to connect and
    /// authenticate.
    pub fn connect_begin(&mut self, name: &str) -> (r: ConnectBegin)
        requires
            old(self).wf(),
        ensures
            final(self).wf(),
            final(self).configs == old(self).configs,
            final(self).trackers == old(self).trackers,
            final(self).heartbeats == old(self).heartbeats,
            !old(self).configs@.contains_key(name@) ==> r is NoConfig && *final(self) == *old(
                self,
            ),
            old(self).configs@.contains_key(name@) && old(self).spec_is_connected(name@) ==> r
                is AlreadyConnected && *final(self) == *old(self),
            old(self).configs@.contains_key(name@) && !old(self).spec_is_connected(name@) ==> (r
                matches ConnectBegin::Attempt(c) && final(self).sessions@ == old(
                self,
            ).sessions@.remove(name@) && c.host@ == old(self).configs@[name@].host@ && c.port
                == old(self).configs@[name@].port && c.password@ == old(
                self,
            ).configs@[name@].password@ && c.request_id == 1 && !c.authenticated && !c.has_stream
                && !c.connection_lost && c.wf()),
    {
        let config = match self.configs.get(name) {
            None => {
                return ConnectBegin::NoConfig;
            },
            Some(c) => c.duplicate(),
        };
        match self.sessions.get(name) {
            Some(existing) => {
                if existing.is_connected() {
                    return ConnectBegin::AlreadyConnected;
                }
                let stale = self.sessions.remove(name);
                if let Some(mut stale_conn) = stale {
                    stale_conn.disconnect();
                }
            },
            None => {
                proof {
                    assert(self.sessions@ =~= old(self).sessions@.remove(name@));
                }
            },
        }
        ConnectBegin::Attempt(RconConnection::new(config.host, config.port, config.password))
    }

    /// Stores the session the application just connected and
    /// authenticated, and starts the server's heartbeat.
    pub fn connect_finish(&mut self, name: &str, session: RconConnection)
        requires
            old(self).wf(),
            session.wf(),
        ensures
            final(self).wf(),
            final(self).configs == old(self).configs,
            final(self).trackers == old(self).trackers,
            final(self).sessions@ == old(self).sessions@.insert(name@, session),
            final(self).heartbeats.active@ == old(self).heartbeats.active@.insert(
                name@,
                (crate::heartbeat::HeartbeatTicker { consecutive_failures: 0 }),
            ),
    {
        self.sessions.insert(name.to_owned(), session);
        self.heartbeats.start_heartbeat(name.to_owned());
        proof {
            assert forall|k: Seq<char>| #[trigger] self.sessions@.contains_key(k) implies self
                .sessions@[k].wf() by {
                if k != name@ {
                    assert(old(self).sessions@.contains_key(k));
                }
            }
        }
    }

    /// Tears down the session for `name` (the entry stays, marked dead, as
    /// long as the server is not removed) and stops its heartbeat.
    pub fn disconnect(&mut self, name: &str)
        requires
            old(self).wf(),
        ensures
            final(self).wf(),
            final(self).configs == old(self).configs,
            final(self).trackers == old(self).trackers,
            final(self).heartbeats.active@ == old(self).heartbeats.active@.remove(name@),
            old(self).sessions@.contains_key(name@) ==> final(self).sessions@ == old(
                self,
            ).sessions@.insert(
                name@,
                (RconConnection {
                    has_stream: false,
                    authenticated: false,
                    connection_lost: true,
                    ..old(self).sessions@[name@]
                }),
            ),
            !old(self).sessions@.contains_key(name@) ==> final(self).sessions == old(
                self,
            ).sessions,
            !final(self).spec_is_connected(name@),
    {
        self.heartbeats.stop_heartbeat(name);
        let taken = self.sessions.remove(name);
        match taken {
            Some(mut conn) => {
                conn.disconnect();
                self.sessions.insert(name.to_owned(), conn);
                proof {
                    assert(self.sessions@ =~= old(self).sessions@.insert(
                        name@,
                        (RconConnection {
                            has_stream: false,
                            authenticated: false,
                            connection_lost: true,
                            ..old(self).sessions@[name@]
                        }),
                    ));
                    assert forall|k: Seq<char>|
                        #[trigger] self.sessions@.contains_key(k) implies self.sessions@[k].wf()
                    by {
                        if k != name@ {
                            assert(old(self).sessions@.contains_key(k));
                        }
                    }
                }
            },
            None => {
            },
        }
    }

    /// Drops the session for `name` outright.
    pub fn remove_connection(&mut self, name: &str)
        requires
            old(self).wf(),
        ensures
            final(self).wf(),
            final(self).configs == old(self).configs,
            final(self).trackers == old(self).trackers,
            final(self).heartbeats == old(self).heartbeats,
            final(self).sessions@ == old(self).sessions@.remove(name@),
            !final(self).spec_is_connected(name@),
    {
        let _ = self.sessions.remove(name);
    }

    /// Takes the session for `name` out of the registry so the application
    /// can drive I/O on it; hand it back with [`RconManager::put_session`].
    pub fn take_session(&mut self, name: &str) -> (r: Option<RconConnection>)
        requires
            old(self).wf(),
        ensures
            final(self).wf(),
            final(self).configs == old(self).configs,
            final(self).trackers == old(self).trackers,
            final(self).heartbeats == old(self).heartbeats,
            final(self).sessions@ == old(self).sessions@.remove(name@),
            r is Some <==> old(self).sessions@.contains_key(name@),
            r matches Some(c) ==> c == old(self).sessions@[name@] && c.wf(),
    {
        self.sessions.remove(name)
    }

    /// Returns a session taken with [`RconManager::take_session`].
    pub fn put_session(&mut self, name: &str, session: RconConnection)
        requires
            old(self).wf(),
            session.wf(),
        ensures
            final(self).wf(),
            final(self).configs == old(self).configs,
            final(self).trackers == old(self).trackers,
            final(self).heartbeats == old(self).heartbeats,
            final(self).sessions@ == old(self).sessions@.insert(name@, session),
    {
        self.sessions.insert(name.to_owned(), session);
        proof {
            assert forall|k: Seq<char>| #[trigger] self.sessions@.contains_key(k) implies self
                .sessions@[k].wf() by {
                if k != name@ {
                    assert(old(self).sessions@.contains_key(k));
                }
            }
        }
    }

    /// Tears down every session and forgets them all.
    pub fn disconnect_all(&mut self)
        requires
            old(self).wf(),
        ensures
            final(self).wf(),
            final(self).configs == old(self).configs,
            final(self).trackers == old(self).trackers,
            final(self).heartbeats == old(self).heartbeats,
            final(self).sessions@ == Map::<Seq<char>, RconConnection>::empty(),
    {
        self.sessions.clear();
    }

    /// The server going offline: its heartbeat stops and its session is
    /// dropped.
    pub fn handle_server_offline(&mut self, name: &str)
        requires
            old(self).wf(),
        ensures
            final(self).wf(),
            final(self).configs == old(self).configs,
            final(self).trackers == old(self).trackers,
            final(self).heartbeats.active@ == old(self).heartbeats.active@.remove(name@),
            final(self).sessions@ == old(self).sessions@.remove(name@),
            !final(self).spec_is_connected(name@),
    {
        self.heartbeats.stop_heartbeat(name);
        self.remove_connection(name);
    }

    /// Records a failed command for `name` at `now_ms`.
    fn record_failure(&mut self, name: &str, now_ms: u64)
        requires
            old(self).wf(),
        ensures
            final(self).wf(),
            final(self).configs == old(self).configs,
            final(self).sessions == old(self).sessions,
            final(self).heartbeats == old(self).heartbeats,
            final(self).trackers@ == old(self).trackers@.insert(
                name@,
                spec_fail_track(spec_tracker_of(old(self).trackers@, name@), now_ms),
            ),
    {
        let base = match self.trackers.remove(name) {
            Some(t) => t,
            None => FailureTracker::default(),
        };
        let consecutive: u32 = if base.consecutive_failures < 0xffff_ffff {
            base.consecutive_failures + 1
        } else {
            base.consecutive_failures
        };
        let total: u32 = if base.total_failures < 0xffff_ffff {
            base.total_failures + 1
        } else {
            base.total_failures
        };
        self.trackers.insert(
            name.to_owned(),
            FailureTracker {
                consecutive_failures: consecutive,
                last_failure_time: Some(now_ms),
                total_failures: total,
            },
        );
        proof {
            assert(self.trackers@ =~= old(self).trackers@.insert(
                name@,
                spec_fail_track(spec_tracker_of(old(self).trackers@, name@), now_ms),
            ));
        }
    }

    /// Records a successful command for `name`: the consecutive-failure
    /// count and last failure time are cleared, the total is kept.  A
    /// server with no tracker stays without one.
    fn record_success(&mut self, name: &str)
        requires
            old(self).wf(),
        ensures
            final(self).wf(),
            final(self).configs == old(self).configs,
            final(self).sessions == old(self).sessions,
            final(self).heartbeats == old(self).heartbeats,
            old(self).trackers@.contains_key(name@) ==> final(self).trackers@ == old(
                self,
            ).trackers@.insert(
                name@,
                (FailureTracker {
                    consecutive_failures: 0,
                    last_failure_time: None,
                    total_failures: old(self).trackers@[name@].total_failures,
                }),
            ),
            !old(self).trackers@.contains_key(name@) ==> *final(self) == *old(self),
    {
        let taken = self.trackers.remove(name);
        match taken {
            Some(t) => {
                self.trackers.insert(
                    name.to_owned(),
                    FailureTracker {
                        consecutive_failures: 0,
                        last_failure_time: None,
                        total_failures: t.total_failures,
                    },
                );
                proof {
                    assert(self.trackers@ =~= old(self).trackers@.insert(
                        name@,
                        (FailureTracker {
                            consecutive_failures: 0,
                            last_failure_time: None,
                            total_failures: old(self).trackers@[name@].total_failures,
                        }),
                    ));
                }
            },
            None => {
            },
        }
    }

    /// The delay before the next attempt, grown with the consecutive
    /// failure count: 200 ms while healthy, 1 s after two failures, 2 s
    /// after five.
    pub fn adaptive_delay_ms(&self, name: &str) -> (d: u64)
        requires
            self.wf(),
        ensures
            ({
                let c = spec_tracker_of(self.trackers@, name@).consecutive_failures;
                d == if c <= 1 {
                    200u64
                } else if c <= 4 {
                    1000u64
                } else {
                    2000u64
                }
            }),
    {
        let c = match self.trackers.get(name) {
            Some(t) => t.consecutive_failures,
            None => 0,
        };
        if c <= 1 {
            200
        } else if c <= 4 {
            1000
        } else {
            2000
        }
    }

    /// Makes sure `name` has a configuration: a missing one is provisioned
    /// with the default endpoint `127.0.0.1:25575` and, as password, the
    /// non-empty value read from the server's properties store
    /// (`stored_password`), or `"minecraft"`.
    fn ensure_server_configured(&mut self, name: &str, stored_password: Option<String>)
        requires
            old(self).wf(),
        ensures
            final(self).wf(),
            final(self).sessions == old(self).sessions,
            final(self).trackers == old(self).trackers,
            final(self).heartbeats == old(self).heartbeats,
            old(self).configs@.contains_key(name@) ==> *final(self) == *old(self),
            !old(self).configs@.contains_key(name@) ==> (final(self).configs@.contains_key(name@)
                && final(self).configs@ == old(self).configs@.insert(
                name@,
                final(self).configs@[name@],
            ) && ({
                let c = final(self).configs@[name@];
                &&& c.host@ == "127.0.0.1"@
                &&& c.port == 25575
                &&& c.password@ == (if stored_password is Some && (stored_password->Some_0)@.len()
                    > 0 {
                    (stored_password->Some_0)@
                } else {
                    "minecraft"@
                })
            })),
    {
        if self.configs.contains_key(name) {
            return ;
        }
        let password = match stored_password {
            Some(p) => if p.unicode_len() > 0 {
                p
            } else {
                String::from_str("minecraft")
            },
            None => String::from_str("minecraft"),
        };
        let config = RconConfig {
            host: String::from_str("127.0.0.1"),
            port: 25575,
            password,
        };
        self.configs.insert(name.to_owned(), config);
    }

    /// Whether `e` is eligible for the single reconnect-and-retry.
    pub fn is_retryable_error(&self, e: &RconError) -> (r: bool)
        ensures
            r == spec_retryable(*e),
    {
        match e {
            RconError::BufferError(_) => true,
            RconError::ServerClosedConnection => true,
            RconError::NetworkTimeout => true,
            RconError::ConnectionFailed(_) => true,
            RconError::InvalidResponse => true,
            RconError::NotConnected => true,
            RconError::CommandFailed(m) => str_contains(m.as_str(), "failed to fill whole buffer")
                || str_contains(m.as_str(), "Connection closed by server") || str_contains(
                m.as_str(),
                "Connection reset",
            ),
            RconError::AuthenticationFailed => false,
        }
    }

    /// Starts a user command for `name`: a missing configuration is
    /// provisioned first (`stored_password` is the value the application
    /// read from the server's properties store, if any), then either the
    /// command can run right away or a connection must be made first.
    pub fn execute_begin(&mut self, name: &str, stored_password: Option<String>, command: String)
        -> (r: (ExecFlow, ExecAction))
        requires
            old(self).wf(),
        ensures
            final(self).wf(),
            final(self).sessions == old(self).sessions,
            final(self).trackers == old(self).trackers,
            final(self).heartbeats == old(self).heartbeats,
            r.0.wf(),
            r.0.command@ == command@,
            r.0.first_error is None,
            final(self).spec_is_connected(name@) ==> r.0.phase is FirstCommand && r.1
                is RunCommand,
            !final(self).spec_is_connected(name@) ==> r.0.phase is Connecting && r.1 is Connect,
            old(self).configs@.contains_key(name@) ==> final(self).configs == old(self).configs,
            !old(self).configs@.contains_key(name@) ==> (final(self).configs@.contains_key(name@)
                && ({
                let c = final(self).configs@[name@];
                &&& final(self).configs@ == old(self).configs@.insert(name@, c)
                &&& c.host@ == "127.0.0.1"@
                &&& c.port == 25575
                &&& c.password@ == (if stored_password is Some && (stored_password->Some_0)@.len()
                    > 0 {
                    (stored_password->Some_0)@
                } else {
                    "minecraft"@
                })
            })),
    {
        self.ensure_server_configured(name, stored_password);
        if self.is_connected(name) {
            (
                ExecFlow { command, phase: ExecPhase::FirstCommand, first_error: None },
                ExecAction::RunCommand,
            )
        } else {
            (
                ExecFlow { command, phase: ExecPhase::Connecting, first_error: None },
                ExecAction::Connect,
            )
        }
    }

    /// Advances a command in flight by one event.  This is the retry
    /// policy: a failed first command is recorded and, only if the error
    /// is retryable, followed by exactly one reconnect and one retry of
    /// the same command; if the retry (or the reconnect before it) also
    /// fails, the original error is what the caller gets.  A
    /// non-retryable error — an authentication failure above all — is
    /// surfaced at once, with no reconnect.
    pub fn execute_step(&mut self, name: &str, flow: &mut ExecFlow, event: ExecEvent, now_ms: u64)
        -> (a: ExecAction)
        requires
            old(self).wf(),
            old(flow).wf(),
            !(old(flow).phase is Completed),
            (old(flow).phase is Connecting || old(flow).phase is ReconnectRetry) <==> event
                is ConnectDone,
        ensures
            final(self).wf(),
            final(flow).wf(),
            final(flow).command == old(flow).command,
            final(self).configs == old(self).configs,
            final(self).sessions == old(self).sessions,
            final(self).heartbeats == old(self).heartbeats,
            (a is Connect || a is RunCommand) <==> !(final(flow).phase is Completed),
            event is ConnectDone && old(flow).phase is Connecting && event->ConnectDone_0 is Ok
                ==> (final(flow).phase is FirstCommand && a is RunCommand && *final(self) == *old(
                self,
            )),
            event is ConnectDone && old(flow).phase is Connecting && event->ConnectDone_0 is Err
                ==> (final(flow).phase is Completed && a is Done && a->Done_0 == Err::<
                String,
                RconError,
            >((event->ConnectDone_0)->Err_0) && *final(self) == *old(self)),
            event is CommandDone && old(flow).phase is FirstCommand && event->CommandDone_0 is Ok
                ==> (final(flow).phase is Completed && a is Done && a->Done_0 == Ok::<
                String,
                RconError,
            >((event->CommandDone_0)->Ok_0) && final(self).trackers@ == spec_success_trackers(
                old(self).trackers@,
                name@,
            )),
            event is CommandDone && old(flow).phase is FirstCommand && event->CommandDone_0 is Err
                && spec_retryable((event->CommandDone_0)->Err_0) ==> (final(flow).phase
                is ReconnectRetry && final(flow).first_error == Some(
                (event->CommandDone_0)->Err_0,
            ) && a is Connect && final(self).trackers@ == old(self).trackers@.insert(
                name@,
                spec_fail_track(spec_tracker_of(old(self).trackers@, name@), now_ms),
            )),
            event is CommandDone && old(flow).phase is FirstCommand && event->CommandDone_0 is Err
                && !spec_retryable((event->CommandDone_0)->Err_0) ==> (final(flow).phase
                is Completed && a is Done && a->Done_0 == Err::<String, RconError>(
                (event->CommandDone_0)->Err_0,
            ) && final(self).trackers@ == old(self).trackers@.insert(
                name@,
                spec_fail_track(spec_tracker_of(old(self).trackers@, name@), now_ms),
            )),
            event is ConnectDone && old(flow).phase is ReconnectRetry && event->ConnectDone_0
                is Ok ==> (final(flow).phase is RetryCommand && a is RunCommand && *final(self)
                == *old(self) && final(flow).first_error == old(flow).first_error),
            event is ConnectDone && old(flow).phase is ReconnectRetry && event->ConnectDone_0
                is Err ==> (final(flow).phase is Completed && a is Done && a->Done_0 == Err::<
                String,
                RconError,
            >((old(flow).first_error)->Some_0) && *final(self) == *old(self)),
            event is CommandDone && old(flow).phase is RetryCommand && event->CommandDone_0 is Ok
                ==> (final(flow).phase is Completed && a is Done && a->Done_0 == Ok::<
                String,
                RconError,
            >((event->CommandDone_0)->Ok_0) && final(self).trackers@ == spec_success_trackers(
                old(self).trackers@,
                name@,
            )),
            event is CommandDone && old(flow).phase is RetryCommand && event->CommandDone_0 is Err
                ==> (final(flow).phase is Completed && a is Done && a->Done_0 == Err::<
                String,
                RconError,
            >((old(flow).first_error)->Some_0) && *final(self) == *old(self)),
    {
        match event {
            ExecEvent::ConnectDone(cr) => {
                match cr {
                    Ok(_) => {
                        match flow.phase {
                            ExecPhase::Connecting => {
                                flow.phase = ExecPhase::FirstCommand;
                                ExecAction::RunCommand
                            },
                            _ => {
                                flow.phase = ExecPhase::RetryCommand;
                                ExecAction::RunCommand
                            },
                        }
                    },
                    Err(e) => {
                        match flow.phase {
                            ExecPhase::Connecting => {
                                flow.phase = ExecPhase::Completed;
                                ExecAction::Done(Err(e))
                            },
                            _ => {
                                let fe = flow.first_error.take();
                                flow.phase = ExecPhase::Completed;
                                match fe {
                                    Some(orig) => ExecAction::Done(Err(orig)),
                                    None => ExecAction::Done(Err(e)),
                                }
                            },
                        }
                    },
                }
            },
            ExecEvent::CommandDone(r) => {
                match r {
                    Ok(s) => {
                        self.record_success(name);
                        flow.phase = ExecPhase::Completed;
                        flow.first_error = None;
                        ExecAction::Done(Ok(s))
                    },
                    Err(e) => {
                        match flow.phase {
                            ExecPhase::FirstCommand => {
                                self.record_failure(name, now_ms);
                                if self.is_retryable_error(&e) {
                                    flow.first_error = Some(e);
                                    flow.phase = ExecPhase::ReconnectRetry;
                                    ExecAction::Connect
                                } else {
                                    flow.phase = ExecPhase::Completed;
                                    ExecAction::Done(Err(e))
                                }
                            },
                            _ => {
                                let fe = flow.first_error.take();
                                flow.phase = ExecPhase::Completed;
                                match fe {
                                    Some(orig) => ExecAction::Done(Err(orig)),
                                    None => ExecAction::Done(Err(e)),
                                }
                            },
                        }
                    },
                }
            },
        }
    }

    /// Whether a heartbeat command may run: unlike a user command this
    /// neither provisions configuration nor repairs the session — without
    /// a live session it refuses at once, so the heartbeat loop can decide
    /// to escalate.
    pub fn heartbeat_begin(&self, name: &str) -> (r: Result<(), RconError>)
        requires
            self.wf(),
        ensures
            r is Ok <==> self.spec_is_connected(name@),
            r matches Err(e) ==> e == RconError::NotConnected,
    {
        if self.is_connected(name) {
            Ok(())
        } else {
            Err(RconError::NotConnected)
        }
    }

    /// Records the outcome of a heartbeat command in the failure tracker.
    pub fn heartbeat_finish(&mut self, name: &str, succeeded: bool, now_ms: u64)
        requires
            old(self).wf(),
        ensures
            final(self).wf(),
            final(self).configs == old(self).configs,
            final(self).sessions == old(self).sessions,
            final(self).heartbeats == old(self).heartbeats,
            succeeded ==> final(self).trackers@ == spec_success_trackers(old(self).trackers@, name@),
            !succeeded ==> final(self).trackers@ == old(self).trackers@.insert(
                name@,
                spec_fail_track(spec_tracker_of(old(self).trackers@, name@), now_ms),
            ),
    {
        if succeeded {
            self.record_success(name);
        } else {
            self.record_failure(name, now_ms);
        }
    }

    /// Maps a command outcome to a connection test answer: success and
    /// the two failures that mean "not reachable as configured" become a
    /// plain boolean; any other error is surfaced.
    pub fn classify_test_connection(result: Result<String, RconError>) -> (r: Result<
        bool,
        RconError,
    >)
        ensures
            result is Ok ==> r == Ok::<bool, RconError>(true),
            result is Err && result->Err_0 is AuthenticationFailed ==> r == Ok::<bool, RconError>(
                false,
            ),
            result is Err && result->Err_0 is ConnectionFailed ==> r == Ok::<bool, RconError>(
                false,
            ),
            result is Err && !(result->Err_0 is AuthenticationFailed) && !(result->Err_0
                is ConnectionFailed) ==> r == Err::<bool, RconError>(result->Err_0),
    {
        match result {
            Ok(_) => Ok(true),
            Err(RconError::AuthenticationFailed) => Ok(false),
            Err(RconError::ConnectionFailed(m)) => {
                proof {
                    assert(RconError::ConnectionFailed(m) is ConnectionFailed);
                }
                Ok(false)
            },
            Err(e) => Err(e),
        }
    }

    /// The names of all servers with a live, authenticated session.
    pub fn get_connected_servers(&self) -> (r: Vec<String>)
        requires
            self.wf(),
        ensures
            forall|j: int| 0 <= j < r@.len() ==> self.spec_is_connected(#[trigger] r@[j]@),
            forall|k: Seq<char>|
                #[trigger] self.spec_is_connected(k) ==> exists|j: int|
                    0 <= j < r@.len() && #[trigger] r@[j]@ == k,
    {
        let n = self.sessions.len();
        let mut r: Vec<String> = Vec::new();
        let mut i: usize = 0;
        while i < n
            invariant
                self.wf(),
                n == self.sessions.spec_len(),
                0 <= i <= n,
                forall|j: int| 0 <= j < r@.len() ==> self.spec_is_connected(#[trigger] r@[j]@),
                forall|p: int|
                    0 <= p < i && (#[trigger] self.sessions.spec_value_at(
                        p,
                    )).spec_is_connected() ==> exists|j: int|
                        0 <= j < r@.len() && #[trigger] r@[j]@ == self.sessions.spec_key_at(p),
            decreases n - i,
        {
            let ghost r0 = r@;
            let connected = self.sessions.value_at(i).is_connected();
            if connected {
                let k = self.sessions.key_at(i);
                r.push(k.clone());
            }
            proof {
                self.sessions.lemma_at(i as int);
                assert forall|p: int|
                    0 <= p < i + 1 && (#[trigger] self.sessions.spec_value_at(
                        p,
                    )).spec_is_connected() implies exists|j: int|
                    0 <= j < r@.len() && #[trigger] r@[j]@ == self.sessions.spec_key_at(p) by {
                    if p < i {
                        let j = choose|j: int|
                            0 <= j < r0.len() && #[trigger] r0[j]@ == self.sessions.spec_key_at(
                                p,
                            );
                        assert(r@[j]@ == self.sessions.spec_key_at(p));
                    } else {
                        assert(r@[r@.len() - 1]@ == self.sessions.spec_key_at(p));
                    }
                }
            }
            i = i + 1;
        }
        proof {
            assert forall|k: Seq<char>| #[trigger] self.spec_is_connected(k) implies exists|j: int|
                0 <= j < r@.len() && #[trigger] r@[j]@ == k by {
                self.sessions.lemma_keys_covered(k);
                let p = choose|p: int|
                    0 <= p < self.sessions.spec_len() && #[trigger] self.sessions.spec_key_at(p)
                        == k;
                self.sessions.lemma_at(p);
                assert(self.sessions.spec_value_at(p).spec_is_connected());
            }
        }
        r
    }
}

/// The trackers after a success was recorded for `name`: the consecutive
/// count and last failure time cleared (if a tracker exists), the total
/// kept; a server without a tracker stays without one.
pub open spec fn spec_success_trackers(
    t: Map<Seq<char>, FailureTracker>,
    name: Seq<char>,
) -> Map<Seq<char>, FailureTracker> {
    if t.contains_key(name) {
        t.insert(
            name,
            FailureTracker {
                consecutive_failures: 0,
                last_failure_time: None,
                total_failures: t[name].total_failures,
            },
        )
    } else {
        t
    }
}

/// Where a command in flight stands.
pub enum ExecPhase {
    /// Waiting for the lazy connect before the first try.
    Connecting,
    /// Waiting for the first run of the command.
    FirstCommand,
    /// The first run failed with a retryable error; waiting for the
    /// reconnect.
    ReconnectRetry,
    /// Waiting for the single retry of the command.
    RetryCommand,
    /// A result has been surfaced.
    Completed,
}

/// A command in flight through [`RconManager::execute_step`].
pub struct ExecFlow {
    pub command: String,
    pub phase: ExecPhase,
    pub first_error: Option<RconError>,
}

impl ExecFlow {
    /// The original error is held exactly while a reconnect-and-retry is
    /// in progress.
    pub open spec fn wf(self) -> bool {
        match self.phase {
            ExecPhase::Connecting => self.first_error is None,
            ExecPhase::FirstCommand => self.first_error is None,
            ExecPhase::ReconnectRetry => self.first_error is Some,
            ExecPhase::RetryCommand => self.first_error is Some,
            ExecPhase::Completed => self.first_error is None,
        }
    }
}

/// What the application must do next for a command in flight.
pub enum ExecAction {
    /// Run the connect flow for this server, then report the outcome.
    Connect,
    /// Run the command round-trip on the server's session, then report
    /// the outcome.
    RunCommand,
    /// The command is finished with this result.
    Done(Result<String, RconError>),
}

/// The outcome of the operation an [`ExecAction`] asked for.
pub enum ExecEvent {
    ConnectDone(Result<(), RconError>),
    CommandDone(Result<String, RconError>),
}

} // verus!
