//! The heartbeat supervisor.
//!
//! One periodic health-check runs per connected server: every tick issues a
//! lightweight command through the registry; after three consecutive
//! failures the supervisor escalates to a full reconnect.  The ticking,
//! task spawning and cancellation live with the embedding application; the
//! registry of active heartbeats and every counting decision are here.

use vstd::prelude::*;

use crate::strmap::StrMap;

verus! {

/// After this many consecutive failed health checks a full reconnect is
/// attempted.
pub const HEARTBEAT_MAX_FAILURES: u32 = 3;

/// The commands the supervisor's actor loop consumes.
#[derive(Debug, Clone)]
pub enum HeartbeatCommand {
    /// Begin (or restart) the periodic health check for a server.
    StartHeartbeat(String),
    /// Stop the periodic health check for a server.
    StopHeartbeat(String),
    /// Stop every health check.
    StopAll,
}

/// Per-server heartbeat state: how many health checks failed in a row.
pub struct HeartbeatTicker {
    pub consecutive_failures: u32,
}

/// What a heartbeat tick asks the caller to do next.
pub enum HeartbeatTickAction {
    /// Keep ticking.
    Continue,
    /// Too many consecutive failures: attempt a full reconnect.
    EscalateReconnect,
}

/// `n + 1`, capped at `u32::MAX`.
pub open spec fn spec_saturating_inc(n: u32) -> u32 {
    if n < u32::MAX {
        (n + 1) as u32
    } else {
        n
    }
}

/// The registry of active heartbeats and their failure counters.
pub struct HeartbeatManager {
    pub active: StrMap<HeartbeatTicker>,
}

impl HeartbeatManager {
    pub open spec fn wf(&self) -> bool {
        self.active.wf()
    }

    /// A supervisor with no active heartbeats.
    pub fn new() -> (m: Self)
        ensures
            m.wf(),
            m.active@ == Map::<Seq<char>, HeartbeatTicker>::empty(),
    {
        HeartbeatManager { active: StrMap::new() }
    }

    /// Starts (or restarts) the heartbeat for `name`: any previous state is
    /// discarded and the failure counter starts at zero.
    pub fn start_heartbeat(&mut self, name: String)
        requires
            old(self).wf(),
        ensures
            final(self).wf(),
            final(self).active@ == old(self).active@.insert(
                name@,
                (HeartbeatTicker { consecutive_failures: 0 }),
            ),
    {
        self.active.insert(name, HeartbeatTicker { consecutive_failures: 0 });
    }

    /// Stops the heartbeat for `name`.
    pub fn stop_heartbeat(&mut self, name: &str)
        requires
            old(self).wf(),
        ensures
            final(self).wf(),
            final(self).active@ == old(self).active@.remove(name@),
    {
        let _ = self.active.remove(name);
    }

    /// Stops every heartbeat.
    pub fn stop_all(&mut self)
        ensures
            final(self).wf(),
            final(self).active@ == Map::<Seq<char>, HeartbeatTicker>::empty(),
    {
        self.active.clear();
    }

    /// Applies one command from the supervisor's queue.
    pub fn apply(&mut self, cmd: HeartbeatCommand)
        requires
            old(self).wf(),
        ensures
            final(self).wf(),
            cmd matches HeartbeatCommand::StartHeartbeat(n) ==> final(self).active@ == old(
                self,
            ).active@.insert(n@, (HeartbeatTicker { consecutive_failures: 0 })),
            cmd matches HeartbeatCommand::StopHeartbeat(n) ==> final(self).active@ == old(
                self,
            ).active@.remove(n@),
            cmd matches HeartbeatCommand::StopAll ==> final(self).active@ == Map::<
                Seq<char>,
                HeartbeatTicker,
            >::empty(),
    {
        match cmd {
            HeartbeatCommand::StartHeartbeat(name) => self.start_heartbeat(name),
            HeartbeatCommand::StopHeartbeat(name) => self.stop_heartbeat(name.as_str()),
            HeartbeatCommand::StopAll => self.stop_all(),
        }
    }

    /// Whether a heartbeat is active for `name`.
    pub fn is_heartbeat_active(&self, name: &str) -> (r: bool)
        ensures
            r == self.active@.contains_key(name@),
    {
        self.active.contains_key(name)
    }

    /// The names of all active heartbeats.
    pub fn get_active_heartbeats(&self) -> (r: Vec<String>)
        requires
            self.wf(),
        ensures
            forall|j: int| 0 <= j < r@.len() ==> self.active@.contains_key(#[trigger] r@[j]@),
            forall|k: Seq<char>|
                #[trigger] self.active@.contains_key(k) ==> exists|j: int|
                    0 <= j < r@.len() && #[trigger] r@[j]@ == k,
    {
        let n = self.active.len();
        let mut r: Vec<String> = Vec::new();
        let mut i: usize = 0;
        while i < n
            invariant
                self.wf(),
                n == self.active.spec_len(),
                0 <= i <= n,
                forall|j: int| 0 <= j < r@.len() ==> self.active@.contains_key(#[trigger] r@[j]@),
                forall|p: int|
                    0 <= p < i ==> exists|j: int|
                        0 <= j < r@.len() && #[trigger] r@[j]@ == #[trigger] self.active.spec_key_at(
                            p,
                        ),
            decreases n - i,
        {
            let ghost r0 = r@;
            let k = self.active.key_at(i);
            r.push(k.clone());
            proof {
                assert forall|p: int| 0 <= p < i + 1 implies exists|j: int|
                    0 <= j < r@.len() && #[trigger] r@[j]@ == #[trigger] self.active.spec_key_at(
                        p,
                    ) by {
                    if p < i {
                        let j = choose|j: int|
                            0 <= j < r0.len() && #[trigger] r0[j]@ == #[trigger] self.active.spec_key_at(
                                p,
                            );
                        assert(r@[j]@ == self.active.spec_key_at(p));
                    } else {
                        assert(r@[r@.len() - 1]@ == self.active.spec_key_at(p));
                    }
                }
            }
            i = i + 1;
        }
        proof {
            assert forall|k: Seq<char>| #[trigger] self.active@.contains_key(k) implies exists|
                j: int,
            | 0 <= j < r@.len() && #[trigger] r@[j]@ == k by {
                self.active.lemma_keys_covered(k);
            }
        }
        r
    }

    /// Records the outcome of one health check: success resets the failure
    /// counter; a failure increments it, and once it reaches
    /// [`HEARTBEAT_MAX_FAILURES`] the caller is asked to escalate to a full
    /// reconnect.  An unknown server is left alone.
    pub fn on_tick_result(&mut self, name: &str, success: bool) -> (a: HeartbeatTickAction)
        requires
            old(self).wf(),
        ensures
            final(self).wf(),
            !old(self).active@.contains_key(name@) ==> *final(self) == *old(self) && (a
                matches HeartbeatTickAction::Continue),
            old(self).active@.contains_key(name@) && success ==> final(self).active@ == old(
                self,
            ).active@.insert(name@, (HeartbeatTicker { consecutive_failures: 0 })) && (a
                matches HeartbeatTickAction::Continue),
            old(self).active@.contains_key(name@) && !success ==> ({
                let inc = spec_saturating_inc(
                    old(self).active@[name@].consecutive_failures,
                );
                &&& final(self).active@ == old(self).active@.insert(
                    name@,
                    (HeartbeatTicker { consecutive_failures: inc }),
                )
                &&& ((a matches HeartbeatTickAction::EscalateReconnect) <==> inc
                    >= HEARTBEAT_MAX_FAILURES)
            }),
    {
        let current = self.active.remove(name);
        match current {
            None => HeartbeatTickAction::Continue,
            Some(t) => {
                if success {
                    self.active.insert(
                        name.to_owned(),
                        HeartbeatTicker { consecutive_failures: 0 },
                    );
                    proof {
                        assert(self.active@ =~= old(self).active@.insert(
                            name@,
                            (HeartbeatTicker { consecutive_failures: 0 }),
                        ));
                    }
                    HeartbeatTickAction::Continue
                } else {
                    let inc: u32 = if t.consecutive_failures < 0xffff_ffff {
                        t.consecutive_failures + 1
                    } else {
                        t.consecutive_failures
                    };
                    self.active.insert(
                        name.to_owned(),
                        HeartbeatTicker { consecutive_failures: inc },
                    );
                    proof {
                        assert(self.active@ =~= old(self).active@.insert(
                            name@,
                            (HeartbeatTicker { consecutive_failures: inc }),
                        ));
                    }
                    if inc >= HEARTBEAT_MAX_FAILURES {
                        HeartbeatTickAction::EscalateReconnect
                    } else {
                        HeartbeatTickAction::Continue
                    }
                }
            },
        }
    }

    /// Records the outcome of an escalated reconnect: success resets the
    /// failure counter, failure leaves it unchanged so the next ticks keep
    /// escalating until the server comes back.
    pub fn on_reconnect_result(&mut self, name: &str, success: bool)
        requires
            old(self).wf(),
        ensures
            final(self).wf(),
            !old(self).active@.contains_key(name@) || !success ==> *final(self) == *old(self),
            old(self).active@.contains_key(name@) && success ==> final(self).active@ == old(
                self,
            ).active@.insert(name@, (HeartbeatTicker { consecutive_failures: 0 })),
    {
        if success && self.active.contains_key(name) {
            let _ = self.active.remove(name);
            self.active.insert(name.to_owned(), HeartbeatTicker { consecutive_failures: 0 });
            proof {
                assert(self.active@ =~= old(self).active@.insert(
                    name@,
                    (HeartbeatTicker { consecutive_failures: 0 }),
                ));
            }
        }
    }
}

} // verus!
