//! Decision logic of the connection monitor: on every tick each session
//! is audited, and a disconnected session is either reconnected with a
//! bounded, exponentially backed-off retry budget, or evicted when its
//! channel has emptied or the budget is spent. The surrounding timer and
//! the voice transport live outside the library; they feed observations
//! in and carry the decided actions out.
use vstd::prelude::*;

verus! {

use std::collections::HashMap;

use crate::constants::MAX_RECONNECTION_ATTEMPTS;
use crate::constants::RECONNECTION_BACKOFF_MS;

broadcast use vstd::std_specs::hash::group_hash_axioms;

/// What the monitor decides for one session on one tick.
#[derive(Debug, Clone, Copy, PartialEq, Eq, Structural)]
pub enum AuditAction {
    /// The voice connection is up; nothing to do.
    Healthy,
    /// Nobody (or nothing verifiable) is listening, or the retry budget
    /// is spent: remove the session, delete its record, leave the
    /// channel.
    Evict,
    /// Try to rejoin the bound voice channel after this backoff.
    Reconnect { backoff_ms: u64 },
}

/// What follows a reconnection attempt.
#[derive(Debug, Clone, Copy, PartialEq, Eq, Structural)]
pub enum ReconnectFollowUp {
    /// Reconnected: post the notice to the session's primary text
    /// channel.
    Notify,
    /// Failed, budget remains: audit again on a later tick.
    RetryLater,
    /// Failed and the budget is spent: evict the session.
    Evict,
}

/// Two to the `e`-th power.
pub open spec fn spec_pow2(e: nat) -> int
    decreases e,
{
    if e == 0 {
        1
    } else {
        2 * spec_pow2((e - 1) as nat)
    }
}

/// The backoff before a retry: none before the first, then the base
/// doubled once per failed attempt.
pub open spec fn spec_reconnect_backoff(attempts: u32) -> int {
    if attempts == 0 {
        0
    } else {
        RECONNECTION_BACKOFF_MS * spec_pow2(attempts as nat)
    }
}

/// Tracks, per guild, how many reconnection attempts have failed since
/// the last success.
pub struct ConnectionMonitor {
    reconnection_attempts: HashMap<u64, u32>,
}

impl ConnectionMonitor {
    /// The failed-attempt count of a guild (zero when untracked).
    pub closed spec fn spec_attempts(self, guild_id: u64) -> u32 {
        if self.reconnection_attempts@.contains_key(guild_id) {
            self.reconnection_attempts@[guild_id]
        } else {
            0
        }
    }

    /// A monitor with no failures recorded.
    pub fn new() -> (r: Self)
        ensures
            forall|g: u64| r.spec_attempts(g) == 0,
    {
        ConnectionMonitor { reconnection_attempts: HashMap::new() }
    }

    /// One session's audit: a connected session is healthy; a
    /// disconnected one is evicted when nobody is listening or the
    /// budget is spent, and otherwise retried after the backoff due for
    /// its failure count.
    #[verifier::loop_isolation(false)]
    pub fn audit(&mut self, guild_id: u64, is_connected: bool, has_users: bool) -> (r: AuditAction)
        ensures
            is_connected ==> r == AuditAction::Healthy && *final(self) == *old(self),
            !is_connected && !has_users ==> r == AuditAction::Evict && final(self).spec_attempts(
                guild_id,
            ) == 0,
            !is_connected && has_users && old(self).spec_attempts(guild_id)
                >= MAX_RECONNECTION_ATTEMPTS ==> r == AuditAction::Evict
                && final(self).spec_attempts(guild_id) == 0,
            !is_connected && has_users && old(self).spec_attempts(guild_id)
                < MAX_RECONNECTION_ATTEMPTS ==> r == (AuditAction::Reconnect {
                backoff_ms: spec_reconnect_backoff(old(self).spec_attempts(guild_id)) as u64,
            }) && *final(self) == *old(self),
            forall|g: u64|
                g != guild_id ==> final(self).spec_attempts(g) == old(self).spec_attempts(g),
    {
        if is_connected {
            return AuditAction::Healthy;
        }
        if !has_users {
            self.reconnection_attempts.remove(&guild_id);
            return AuditAction::Evict;
        }
        let attempts = match self.reconnection_attempts.get(&guild_id) {
            Option::Some(a) => *a,
            Option::None => 0,
        };
        if attempts >= MAX_RECONNECTION_ATTEMPTS {
            self.reconnection_attempts.remove(&guild_id);
            return AuditAction::Evict;
        }
        proof {
            assert(spec_pow2(0) == 1);
            assert(spec_pow2(1) == 2);
            assert(spec_pow2(2) == 4);
        }
        let backoff: u64 = if attempts == 0 {
            0
        } else {
            let mut factor: u64 = 1;
            let mut e: u32 = 0;
            while e < attempts
                invariant
                    e <= attempts,
                    attempts < MAX_RECONNECTION_ATTEMPTS,
                    factor == spec_pow2(e as nat),
                    factor <= 4,
                decreases attempts - e,
            {
                factor = factor * 2;
                e = e + 1;
            }
            RECONNECTION_BACKOFF_MS * factor
        };
        AuditAction::Reconnect { backoff_ms: backoff }
    }

    /// Books the result of a reconnection attempt: success resets the
    /// budget and asks for the notice; failure spends one attempt and
    /// evicts once the budget is gone.
    pub fn on_reconnect_result(&mut self, guild_id: u64, success: bool) -> (r: ReconnectFollowUp)
        requires
            old(self).spec_attempts(guild_id) < u32::MAX,
        ensures
            success ==> r == ReconnectFollowUp::Notify && final(self).spec_attempts(guild_id) == 0,
            !success && old(self).spec_attempts(guild_id) + 1 >= MAX_RECONNECTION_ATTEMPTS ==> r
                == ReconnectFollowUp::Evict && final(self).spec_attempts(guild_id) == 0,
            !success && old(self).spec_attempts(guild_id) + 1 < MAX_RECONNECTION_ATTEMPTS ==> r
                == ReconnectFollowUp::RetryLater
                && final(self).spec_attempts(guild_id) == old(self).spec_attempts(guild_id) + 1,
            forall|g: u64|
                g != guild_id ==> final(self).spec_attempts(g) == old(self).spec_attempts(g),
    {
        if success {
            self.reconnection_attempts.remove(&guild_id);
            return ReconnectFollowUp::Notify;
        }
        let attempts = match self.reconnection_attempts.get(&guild_id) {
            Option::Some(a) => *a,
            Option::None => 0,
        };
        let new_attempts = attempts + 1;
        if new_attempts >= MAX_RECONNECTION_ATTEMPTS {
            self.reconnection_attempts.remove(&guild_id);
            ReconnectFollowUp::Evict
        } else {
            self.reconnection_attempts.insert(guild_id, new_attempts);
            ReconnectFollowUp::RetryLater
        }
    }
}

impl Default for ConnectionMonitor {
    /// A monitor with no failures recorded.
    fn default() -> (r: Self)
        ensures
            forall|g: u64| r.spec_attempts(g) == 0,
    {
        ConnectionMonitor::new()
    }
}

/// What a session's reconnection decides from the transport's answers:
/// already connected is success at once; a failed join propagates the
/// error;
/// a successful join into a channel without human listeners is undone
/// and reported as the empty-channel signal, unless the check is
/// skipped.
#[derive(Debug, Clone, Copy, PartialEq, Eq, Structural)]
pub enum ReconnectStep {
    /// Nothing to do: the transport already holds a connection.
    AlreadyConnected,
    /// The join failed; surface the transport error.
    JoinFailed,
    /// Joined, but nobody human is there: leave again and report the
    /// empty channel.
    LeaveEmpty,
    /// Joined and listeners are present (or the check was skipped).
    Connected,
}

/// Decides the outcome of one reconnection pass from plain observations:
/// whether a connection already exists, whether the join succeeded, and
/// how many humans occupy the channel afterwards (absent when the
/// occupancy could not be verified, which is tolerated).
pub fn reconnect_step(
    already_connected: bool,
    join_ok: bool,
    skip_check: bool,
    non_bot_occupants: Option<usize>,
) -> (r: ReconnectStep)
    ensures
        already_connected ==> r == ReconnectStep::AlreadyConnected,
        !already_connected && !join_ok ==> r == ReconnectStep::JoinFailed,
        !already_connected && join_ok && !skip_check && non_bot_occupants == Option::Some(0usize)
            ==> r == ReconnectStep::LeaveEmpty,
        !already_connected && join_ok && (skip_check || non_bot_occupants != Option::Some(0usize))
            ==> r == ReconnectStep::Connected,
{
    if already_connected {
        ReconnectStep::AlreadyConnected
    } else if !join_ok {
        ReconnectStep::JoinFailed
    } else if !skip_check && {
        match non_bot_occupants {
            Option::Some(n) => n == 0,
            Option::None => false,
        }
    } {
        ReconnectStep::LeaveEmpty
    } else {
        ReconnectStep::Connected
    }
}

} // verus!
