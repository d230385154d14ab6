use vstd::prelude::*;

use crate::audit_log::{ActionEntry, ActionLog};
use crate::error::StableGuardError;
use crate::identity::AuthorityId;
use crate::risk_config::RiskConfig;
use crate::treasury::Treasury;

verus! {

/// Account selection for creating a treasury: the signing authority, whose
/// derived slot the new record will occupy.
#[derive(Clone, Copy, PartialEq, Eq, Structural, Debug)]
pub struct InitializeTreasury {
    pub authority: AuthorityId,
}

/// Account selection for updating a treasury: `treasury` is the owner key
/// under which the target record is addressed, `authority` the verified
/// signer of the request.
#[derive(Clone, Copy, PartialEq, Eq, Structural, Debug)]
pub struct UpdateTreasury {
    pub treasury: AuthorityId,
    pub authority: AuthorityId,
}

/// Account selection for creating an action log.
#[derive(Clone, Copy, PartialEq, Eq, Structural, Debug)]
pub struct InitializeActionLog {
    pub authority: AuthorityId,
}

/// Account selection for appending to an action log: `action_log` is the
/// owner key under which the target record is addressed, `authority` the
/// verified signer of the request.
#[derive(Clone, Copy, PartialEq, Eq, Structural, Debug)]
pub struct LogAction {
    pub action_log: AuthorityId,
    pub authority: AuthorityId,
}

/// Account selection for creating a risk configuration.
#[derive(Clone, Copy, PartialEq, Eq, Structural, Debug)]
pub struct InitializeRiskConfig {
    pub authority: AuthorityId,
}

/// Account selection for updating a risk configuration: `risk_config` is
/// the owner key under which the target record is addressed, `authority`
/// the verified signer of the request.
#[derive(Clone, Copy, PartialEq, Eq, Structural, Debug)]
pub struct UpdateRiskConfig {
    pub risk_config: AuthorityId,
    pub authority: AuthorityId,
}

/// The durable record store: every treasury, action log and risk
/// configuration, each addressed by its owner's key. Stands for the
/// keyed storage layer of the hosting environment: creation is rejected
/// when the owner's slot is occupied, mutation when the slot is absent.
pub struct GuardStore {
    pub treasuries: Vec<Treasury>,
    pub action_logs: Vec<ActionLog>,
    pub risk_configs: Vec<RiskConfig>,
}

impl GuardStore {
    /// Well-formedness: within each record family the owner keys are
    /// pairwise distinct — one slot per (owner, record type) — and every
    /// action log satisfies its own invariant.
    pub open spec fn wf(self) -> bool {
        &&& (forall|i: int, j: int|
            0 <= i < j < self.treasuries@.len() ==> self.treasuries@[i].authority
                != self.treasuries@[j].authority)
        &&& (forall|i: int, j: int|
            0 <= i < j < self.action_logs@.len() ==> self.action_logs@[i].authority
                != self.action_logs@[j].authority)
        &&& (forall|i: int, j: int|
            0 <= i < j < self.risk_configs@.len() ==> self.risk_configs@[i].authority
                != self.risk_configs@[j].authority)
        &&& (forall|i: int|
            0 <= i < self.action_logs@.len() ==> (#[trigger] self.action_logs@[i]).wf())
    }

    /// A treasury record for `authority` exists.
    pub open spec fn has_treasury(self, authority: AuthorityId) -> bool {
        exists|i: int|
            0 <= i < self.treasuries@.len() && (#[trigger] self.treasuries@[i]).authority
                == authority
    }

    /// An action log for `authority` exists.
    pub open spec fn has_action_log(self, authority: AuthorityId) -> bool {
        exists|i: int|
            0 <= i < self.action_logs@.len() && (#[trigger] self.action_logs@[i]).authority
                == authority
    }

    /// A risk configuration for `authority` exists.
    pub open spec fn has_risk_config(self, authority: AuthorityId) -> bool {
        exists|i: int|
            0 <= i < self.risk_configs@.len() && (#[trigger] self.risk_configs@[i]).authority
                == authority
    }

    /// An empty store: no record of any kind.
    pub fn new() -> (s: GuardStore)
        ensures
            s.wf(),
            s.treasuries@ == Seq::<Treasury>::empty(),
            s.action_logs@ == Seq::<ActionLog>::empty(),
            s.risk_configs@ == Seq::<RiskConfig>::empty(),
    {
        GuardStore { treasuries: Vec::new(), action_logs: Vec::new(), risk_configs: Vec::new() }
    }

    fn find_treasury(&self, authority: AuthorityId) -> (r: Option<usize>)
        ensures
            match r {
                Some(i) => i < self.treasuries@.len() && self.treasuries@[i as int].authority
                    == authority,
                None => !self.has_treasury(authority),
            },
    {
        let mut i: usize = 0;
        while i < self.treasuries.len()
            invariant
                i <= self.treasuries@.len(),
                forall|j: int| 0 <= j < i ==> self.treasuries@[j].authority != authority,
            decreases self.treasuries@.len() - i,
        {
            if self.treasuries[i].authority == authority {
                return Some(i);
            }
            i = i + 1;
        }
        None
    }

    fn find_action_log(&self, authority: AuthorityId) -> (r: Option<usize>)
        ensures
            match r {
                Some(i) => i < self.action_logs@.len() && self.action_logs@[i as int].authority
                    == authority,
                None => !self.has_action_log(authority),
            },
    {
        let mut i: usize = 0;
        while i < self.action_logs.len()
            invariant
                i <= self.action_logs@.len(),
                forall|j: int| 0 <= j < i ==> self.action_logs@[j].authority != authority,
            decreases self.action_logs@.len() - i,
        {
            if self.action_logs[i].authority == authority {
                return Some(i);
            }
            i = i + 1;
        }
        None
    }

    fn find_risk_config(&self, authority: AuthorityId) -> (r: Option<usize>)
        ensures
            match r {
                Some(i) => i < self.risk_configs@.len() && self.risk_configs@[i as int].authority
                    == authority,
                None => !self.has_risk_config(authority),
            },
    {
        let mut i: usize = 0;
        while i < self.risk_configs.len()
            invariant
                i <= self.risk_configs@.len(),
                forall|j: int| 0 <= j < i ==> self.risk_configs@[j].authority != authority,
            decreases self.risk_configs@.len() - i,
        {
            if self.risk_configs[i].authority == authority {
                return Some(i);
            }
            i = i + 1;
        }
        None
    }

    /// Create the treasury record for the signing authority, all balances
    /// zero, stamped `now`. Rejected with `AlreadyExists` when the slot is
    /// occupied; nothing else changes either way.
    pub fn initialize_treasury(&mut self, ctx: InitializeTreasury, now: i64) -> (r: Result<
        (),
        StableGuardError,
    >)
        requires
            old(self).wf(),
        ensures
            final(self).wf(),
            final(self).action_logs@ == old(self).action_logs@,
            final(self).risk_configs@ == old(self).risk_configs@,
            r is Ok <==> !old(self).has_treasury(ctx.authority),
            r is Ok ==> final(self).treasuries@ == old(self).treasuries@.push(
                Treasury::fresh(ctx.authority, now),
            ),
            r is Err ==> r == Err::<(), StableGuardError>(StableGuardError::AlreadyExists)
                && *final(self) == *old(self),
    {
        match self.find_treasury(ctx.authority) {
            Some(_) => Err(StableGuardError::AlreadyExists),
            None => {
                let t = Treasury::initialize(ctx.authority, now);
                self.treasuries.push(t);
                Ok(())
            },
        }
    }

    /// Overwrite the balance fields of the treasury addressed by
    /// `ctx.treasury`, provided it exists (`NotFound` otherwise) and the
    /// signer is its stored authority (`Unauthorized` otherwise). A
    /// rejected call changes nothing.
    pub fn update_treasury(
        &mut self,
        ctx: UpdateTreasury,
        usdc_balance: u64,
        usdt_balance: u64,
        pyusd_balance: u64,
        total_value_usd: u64,
        now: i64,
    ) -> (r: Result<(), StableGuardError>)
        requires
            old(self).wf(),
        ensures
            final(self).wf(),
            final(self).action_logs@ == old(self).action_logs@,
            final(self).risk_configs@ == old(self).risk_configs@,
            final(self).treasuries@.len() == old(self).treasuries@.len(),
            r is Ok <==> old(self).has_treasury(ctx.treasury) && ctx.authority == ctx.treasury,
            !old(self).has_treasury(ctx.treasury) ==> r == Err::<(), StableGuardError>(
                StableGuardError::NotFound,
            ) && *final(self) == *old(self),
            old(self).has_treasury(ctx.treasury) && ctx.authority != ctx.treasury ==> r == Err::<
                (),
                StableGuardError,
            >(StableGuardError::Unauthorized) && *final(self) == *old(self),
            r is Ok ==> forall|i: int|
                0 <= i < old(self).treasuries@.len() ==> #[trigger] final(self).treasuries@[i] == (
                if old(self).treasuries@[i].authority == ctx.treasury {
                    old(self).treasuries@[i].updated(
                        usdc_balance,
                        usdt_balance,
                        pyusd_balance,
                        total_value_usd,
                        now,
                    )
                } else {
                    old(self).treasuries@[i]
                }),
    {
        match self.find_treasury(ctx.treasury) {
            None => Err(StableGuardError::NotFound),
            Some(i) => {
                let mut rec = self.treasuries[i];
                let r = rec.update(
                    ctx.authority,
                    usdc_balance,
                    usdt_balance,
                    pyusd_balance,
                    total_value_usd,
                    now,
                );
                if r.is_ok() {
                    self.treasuries[i] = rec;
                }
                r
            },
        }
    }

    /// Create the empty action log for the signing authority. Rejected
    /// with `AlreadyExists` when the slot is occupied; nothing else
    /// changes either way.
    pub fn initialize_action_log(&mut self, ctx: InitializeActionLog) -> (r: Result<
        (),
        StableGuardError,
    >)
        requires
            old(self).wf(),
        ensures
            final(self).wf(),
            final(self).treasuries@ == old(self).treasuries@,
            final(self).risk_configs@ == old(self).risk_configs@,
            r is Ok <==> !old(self).has_action_log(ctx.authority),
            r is Ok ==> {
                &&& final(self).action_logs@.len() == old(self).action_logs@.len() + 1
                &&& (forall|i: int|
                    0 <= i < old(self).action_logs@.len() ==> #[trigger] final(self).action_logs@[i] == old(self).action_logs@[i])
                &&& final(self).action_logs@[old(self).action_logs@.len() as int].is_fresh(
                    ctx.authority,
                )
            },
            r is Err ==> r == Err::<(), StableGuardError>(StableGuardError::AlreadyExists)
                && *final(self) == *old(self),
    {
        match self.find_action_log(ctx.authority) {
            Some(_) => Err(StableGuardError::AlreadyExists),
            None => {
                let l = ActionLog::initialize(ctx.authority);
                self.action_logs.push(l);
                Ok(())
            },
        }
    }

    /// Append one decision record to the action log addressed by
    /// `ctx.action_log`, provided it exists (`NotFound` otherwise), the
    /// signer is its stored authority (`Unauthorized` otherwise) and the
    /// note is within length (`DetailsTooLong` otherwise). A rejected call
    /// changes nothing.
    pub fn log_action(
        &mut self,
        ctx: LogAction,
        action_type: u8,
        from_token: u8,
        to_token: u8,
        amount: u64,
        risk_score: u8,
        details: String,
        now: i64,
    ) -> (r: Result<(), StableGuardError>)
        requires
            old(self).wf(),
            forall|i: int|
                0 <= i < old(self).action_logs@.len() && (#[trigger] old(self).action_logs@[i]).authority == ctx.action_log ==> old(self).action_logs@[i].total_actions < u64::MAX,
        ensures
            final(self).wf(),
            final(self).treasuries@ == old(self).treasuries@,
            final(self).risk_configs@ == old(self).risk_configs@,
            final(self).action_logs@.len() == old(self).action_logs@.len(),
            r is Ok <==> (old(self).has_action_log(ctx.action_log) && ctx.authority
                == ctx.action_log && details@.len() <= ActionEntry::MAX_DETAILS as int),
            !old(self).has_action_log(ctx.action_log) ==> r == Err::<(), StableGuardError>(
                StableGuardError::NotFound,
            ) && final(self).action_logs@ == old(self).action_logs@,
            old(self).has_action_log(ctx.action_log) && ctx.authority != ctx.action_log ==> r
                == Err::<(), StableGuardError>(StableGuardError::Unauthorized) && final(self).action_logs@ == old(self).action_logs@,
            old(self).has_action_log(ctx.action_log) && ctx.authority == ctx.action_log
                && details@.len() > ActionEntry::MAX_DETAILS as int ==> r == Err::<
                (),
                StableGuardError,
            >(StableGuardError::DetailsTooLong) && final(self).action_logs@ == old(self).action_logs@,
            r is Ok ==> forall|i: int|
                0 <= i < old(self).action_logs@.len() && (#[trigger] old(self).action_logs@[i]).authority != ctx.action_log ==> final(self).action_logs@[i]
                    == old(self).action_logs@[i],
            r is Ok ==> forall|i: int|
                0 <= i < old(self).action_logs@.len() && (#[trigger] old(self).action_logs@[i]).authority == ctx.action_log ==> crate::audit_log::appended_once(
                    old(self).action_logs@[i],
                    final(self).action_logs@[i],
                    ActionEntry::made(
                        now,
                        action_type,
                        from_token,
                        to_token,
                        amount,
                        risk_score,
                        details,
                    ),
                ),
    {
        match self.find_action_log(ctx.action_log) {
            None => Err(StableGuardError::NotFound),
            Some(i) => {
                let ghost s0 = self.action_logs@;
                let mut rec = self.action_logs.remove(i);
                let r = rec.append(
                    ctx.authority,
                    action_type,
                    from_token,
                    to_token,
                    amount,
                    risk_score,
                    details,
                    now,
                );
                self.action_logs.insert(i, rec);
                proof {
                    assert(self.action_logs@ =~= s0.update(i as int, rec));
                }
                r
            },
        }
    }

    /// Create the risk configuration for the signing authority with the
    /// supplied thresholds and the fixed weights {40, 30, 20, 10}.
    /// Rejected with `AlreadyExists` when the slot is occupied; nothing
    /// else changes either way.
    pub fn initialize_risk_config(
        &mut self,
        ctx: InitializeRiskConfig,
        alert_threshold: u8,
        rebalance_threshold: u8,
        emergency_threshold: u8,
    ) -> (r: Result<(), StableGuardError>)
        requires
            old(self).wf(),
        ensures
            final(self).wf(),
            final(self).treasuries@ == old(self).treasuries@,
            final(self).action_logs@ == old(self).action_logs@,
            r is Ok <==> !old(self).has_risk_config(ctx.authority),
            r is Ok ==> final(self).risk_configs@ == old(self).risk_configs@.push(
                RiskConfig::fresh(
                    ctx.authority,
                    alert_threshold,
                    rebalance_threshold,
                    emergency_threshold,
                ),
            ),
            r is Err ==> r == Err::<(), StableGuardError>(StableGuardError::AlreadyExists)
                && *final(self) == *old(self),
    {
        match self.find_risk_config(ctx.authority) {
            Some(_) => Err(StableGuardError::AlreadyExists),
            None => {
                let c = RiskConfig::initialize(
                    ctx.authority,
                    alert_threshold,
                    rebalance_threshold,
                    emergency_threshold,
                );
                self.risk_configs.push(c);
                Ok(())
            },
        }
    }

    /// Overwrite the three thresholds of the risk configuration addressed
    /// by `ctx.risk_config`, provided it exists (`NotFound` otherwise) and
    /// the signer is its stored authority (`Unauthorized` otherwise).
    /// Weights and `is_active` never change; a rejected call changes
    /// nothing.
    pub fn update_risk_config(
        &mut self,
        ctx: UpdateRiskConfig,
        alert_threshold: u8,
        rebalance_threshold: u8,
        emergency_threshold: u8,
    ) -> (r: Result<(), StableGuardError>)
        requires
            old(self).wf(),
        ensures
            final(self).wf(),
            final(self).treasuries@ == old(self).treasuries@,
            final(self).action_logs@ == old(self).action_logs@,
            final(self).risk_configs@.len() == old(self).risk_configs@.len(),
            r is Ok <==> old(self).has_risk_config(ctx.risk_config) && ctx.authority
                == ctx.risk_config,
            !old(self).has_risk_config(ctx.risk_config) ==> r == Err::<(), StableGuardError>(
                StableGuardError::NotFound,
            ) && *final(self) == *old(self),
            old(self).has_risk_config(ctx.risk_config) && ctx.authority != ctx.risk_config ==> r
                == Err::<(), StableGuardError>(StableGuardError::Unauthorized) && *final(self)
                == *old(self),
            r is Ok ==> forall|i: int|
                0 <= i < old(self).risk_configs@.len() ==> #[trigger] final(self).risk_configs@[i]
                    == (if old(self).risk_configs@[i].authority == ctx.risk_config {
                    old(self).risk_configs@[i].with_thresholds(
                        alert_threshold,
                        rebalance_threshold,
                        emergency_threshold,
                    )
                } else {
                    old(self).risk_configs@[i]
                }),
    {
        match self.find_risk_config(ctx.risk_config) {
            None => Err(StableGuardError::NotFound),
            Some(i) => {
                let mut rec = self.risk_configs[i];
                let r = rec.update(
                    ctx.authority,
                    alert_threshold,
                    rebalance_threshold,
                    emergency_threshold,
                );
                if r.is_ok() {
                    self.risk_configs[i] = rec;
                }
                r
            },
        }
    }

    /// Expose the treasury record stored for `authority`, if any.
    pub fn get_treasury(&self, authority: AuthorityId) -> (r: Option<&Treasury>)
        ensures
            match r {
                Some(t) => self.has_treasury(authority) && t.authority == authority && exists|
                    i: int,
                |
                    0 <= i < self.treasuries@.len() && (#[trigger] self.treasuries@[i]) == *t,
                None => !self.has_treasury(authority),
            },
    {
        match self.find_treasury(authority) {
            Some(i) => Some(&self.treasuries[i]),
            None => None,
        }
    }

    /// Expose the action log stored for `authority`, if any.
    pub fn get_action_log(&self, authority: AuthorityId) -> (r: Option<&ActionLog>)
        ensures
            match r {
                Some(l) => self.has_action_log(authority) && l.authority == authority && exists|
                    i: int,
                |
                    0 <= i < self.action_logs@.len() && (#[trigger] self.action_logs@[i]) == *l,
                None => !self.has_action_log(authority),
            },
    {
        match self.find_action_log(authority) {
            Some(i) => Some(&self.action_logs[i]),
            None => None,
        }
    }

    /// Expose the risk configuration stored for `authority`, if any.
    pub fn get_risk_config(&self, authority: AuthorityId) -> (r: Option<&RiskConfig>)
        ensures
            match r {
                Some(c) => self.has_risk_config(authority) && c.authority == authority && exists|
                    i: int,
                |
                    0 <= i < self.risk_configs@.len() && (#[trigger] self.risk_configs@[i]) == *c,
                None => !self.has_risk_config(authority),
            },
    {
        match self.find_risk_config(authority) {
            Some(i) => Some(&self.risk_configs[i]),
            None => None,
        }
    }
}

} // verus!
