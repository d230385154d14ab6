use vstd::prelude::*;

use vstd::arithmetic::div_mod::lemma_add_mod_noop;
use vstd::math::min;

use crate::error::StableGuardError;
use crate::identity::AuthorityId;

verus! {

/// One recorded agent decision. Entries live only inside an [`ActionLog`]
/// and are never independently owned.
#[derive(PartialEq, Eq, Debug)]
pub struct ActionEntry {
    /// Oracle time at which the entry was appended.
    pub timestamp: i64,
    /// Decision tag: 0 = monitor, 1 = alert, 2 = rebalance, 3 = emergency exit.
    pub action_type: u8,
    /// Token tag: 0 = USDC, 1 = USDT, 2 = PYUSD.
    pub from_token: u8,
    pub to_token: u8,
    pub amount: u64,
    /// Byte-range severity score.
    pub risk_score: u8,
    /// Free-text note, at most [`ActionEntry::MAX_DETAILS`] characters.
    pub details: String,
}

impl ActionEntry {
    /// Maximum character length of the `details` note.
    pub const MAX_DETAILS: usize = 200;

    /// The entry that a successful append builds from its arguments.
    pub open spec fn made(
        timestamp: i64,
        action_type: u8,
        from_token: u8,
        to_token: u8,
        amount: u64,
        risk_score: u8,
        details: String,
    ) -> ActionEntry {
        ActionEntry { timestamp, action_type, from_token, to_token, amount, risk_score, details }
    }
}

/// Fixed-capacity audit trail of agent decisions, owned by one authority.
///
/// While fewer than [`ActionLog::MAX_ENTRIES`] entries are held, appends
/// grow the sequence at the end. Once full, each append overwrites the
/// slot at `head` and advances `head` modulo the capacity, so the oldest
/// entry is silently discarded. `total_actions` counts every successful
/// append for the log's lifetime and is the only record of how many
/// actions ever occurred once the buffer has wrapped.
#[derive(PartialEq, Eq, Debug)]
pub struct ActionLog {
    /// Owning identity, set once at creation and immutable thereafter.
    pub authority: AuthorityId,
    pub entries: Vec<ActionEntry>,
    /// Number of logically valid entries currently held.
    pub count: u32,
    /// Ring-buffer write cursor: the slot the next append overwrites once
    /// the log is full; 0 until then.
    pub head: u32,
    /// Lifetime append counter; never decreases, independent of `count`.
    pub total_actions: u64,
}

/// Relation between a log before and after one successful append of the
/// entry `e`: below capacity the entry goes at the end and `count` grows;
/// at capacity it overwrites the slot at the cursor and the cursor
/// advances modulo the capacity. `total_actions` grows by one either way.
pub open spec fn appended_once(pre: ActionLog, post: ActionLog, e: ActionEntry) -> bool {
    &&& post.authority == pre.authority
    &&& post.total_actions == pre.total_actions + 1
    &&& if pre.count < ActionLog::MAX_ENTRIES as u32 {
        &&& post.entries@ == pre.entries@.push(e)
        &&& post.count == pre.count + 1
        &&& post.head == pre.head
    } else {
        &&& post.entries@ == pre.entries@.update(pre.head as int, e)
        &&& post.count == pre.count
        &&& post.head as int == (pre.head as int + 1) % (ActionLog::MAX_ENTRIES as int)
    }
}

impl ActionLog {
    /// Hard capacity of the entry buffer.
    pub const MAX_ENTRIES: usize = 20;

    /// A freshly created, still empty log owned by `authority`.
    pub open spec fn is_fresh(self, authority: AuthorityId) -> bool {
        &&& self.authority == authority
        &&& self.entries@ == Seq::<ActionEntry>::empty()
        &&& self.count == 0
        &&& self.head == 0
        &&& self.total_actions == 0
    }

    /// Well-formedness: the buffer holds exactly `count` entries, and both
    /// `count` and `head` are determined by the lifetime counter — the
    /// count is `min(total_actions, MAX_ENTRIES)` and the cursor has gone
    /// around `(total_actions - MAX_ENTRIES) mod MAX_ENTRIES` slots once
    /// the log has wrapped. Creation establishes this and every append
    /// preserves it.
    pub open spec fn wf(self) -> bool {
        &&& self.entries@.len() == self.count as int
        &&& self.count as int == min(self.total_actions as int, ActionLog::MAX_ENTRIES as int)
        &&& (self.head as int) < (ActionLog::MAX_ENTRIES as int)
        &&& self.total_actions as int <= ActionLog::MAX_ENTRIES as int ==> self.head == 0
        &&& self.total_actions as int > ActionLog::MAX_ENTRIES as int ==> self.head as int
            == (self.total_actions as int - ActionLog::MAX_ENTRIES as int) % (
        ActionLog::MAX_ENTRIES as int)
    }

    /// Create the empty log for `authority`.
    pub fn initialize(authority: AuthorityId) -> (l: ActionLog)
        ensures
            l.wf(),
            l.authority == authority,
            l.entries@ == Seq::<ActionEntry>::empty(),
            l.count == 0,
            l.head == 0,
            l.total_actions == 0,
    {
        ActionLog { authority, entries: Vec::new(), count: 0, head: 0, total_actions: 0 }
    }

    /// Append one decision record, provided the caller is the stored
    /// authority and the note is within length. Below capacity the entry
    /// goes at the end; at capacity it overwrites the slot at `head` and
    /// the cursor advances modulo the capacity. `total_actions` grows by
    /// one on every success; a rejected call changes nothing.
    pub fn append(
        &mut self,
        caller: AuthorityId,
        action_type: u8,
        from_token: u8,
        to_token: u8,
        amount: u64,
        risk_score: u8,
        details: String,
        now: i64,
    ) -> (r: Result<(), StableGuardError>)
        requires
            old(self).wf(),
            old(self).total_actions < u64::MAX,
        ensures
            final(self).wf(),
            final(self).authority == old(self).authority,
            r is Ok <==> (caller == old(self).authority && details@.len()
                <= ActionEntry::MAX_DETAILS as int),
            caller != old(self).authority ==> r == Err::<(), StableGuardError>(
                StableGuardError::Unauthorized,
            ) && *final(self) == *old(self),
            caller == old(self).authority && details@.len() > ActionEntry::MAX_DETAILS as int
                ==> r == Err::<(), StableGuardError>(StableGuardError::DetailsTooLong)
                && *final(self) == *old(self),
            r is Ok ==> appended_once(
                *old(self),
                *final(self),
                ActionEntry::made(
                    now,
                    action_type,
                    from_token,
                    to_token,
                    amount,
                    risk_score,
                    details,
                ),
            ),
    {
        if caller != self.authority {
            return Err(StableGuardError::Unauthorized);
        }
        if details.as_str().unicode_len() > ActionEntry::MAX_DETAILS {
            return Err(StableGuardError::DetailsTooLong);
        }

        let entry = ActionEntry {
            timestamp: now,
            action_type,
            from_token,
            to_token,
            amount,
            risk_score,
            details,
        };

        if self.count < ActionLog::MAX_ENTRIES as u32 {
            self.entries.push(entry);
            self.count = self.count + 1;
        } else {
            let idx: usize = self.head as usize;
            self.entries[idx] = entry;
            self.head = ((self.head as usize + 1) % ActionLog::MAX_ENTRIES) as u32;
            proof {
                if old(self).total_actions as int > ActionLog::MAX_ENTRIES as int {
                    lemma_add_mod_noop(
                        old(self).total_actions as int - ActionLog::MAX_ENTRIES as int,
                        1,
                        ActionLog::MAX_ENTRIES as int,
                    );
                }
            }
        }

        self.total_actions = self.total_actions + 1;
        Ok(())
    }
}

/// Law: in a well-formed log the bounded entry count and the ring cursor
/// are determined by the lifetime counter alone. A fresh log has
/// `total_actions == 0` and each successful append adds one, so after the
/// Nth successful append `total_actions == N` and `count == min(N, 20)`;
/// and the slot that the next append at capacity overwrites — `head` — is
/// 0 for the 21st append and `(N - 20) % 20` thereafter.
pub proof fn lemma_counters_track_total(log: ActionLog)
    requires
        log.wf(),
    ensures
        log.count as int == min(log.total_actions as int, ActionLog::MAX_ENTRIES as int),
        log.total_actions as int <= ActionLog::MAX_ENTRIES as int ==> log.head == 0,
        log.total_actions as int > ActionLog::MAX_ENTRIES as int ==> log.head as int == (
        log.total_actions as int - ActionLog::MAX_ENTRIES as int) % (ActionLog::MAX_ENTRIES as int),
{
}

} // verus!
