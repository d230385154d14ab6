use vstd::prelude::*;

use crate::error::StableGuardError;
use crate::identity::AuthorityId;

verus! {

/// Latest known balance snapshot for one authority. Balances are in the
/// smallest token denomination; `total_value_usd` is an externally
/// computed aggregate that is stored, never recomputed here.
#[derive(Clone, Copy, PartialEq, Eq, Structural, Debug)]
pub struct Treasury {
    /// Owning identity, set once at creation and immutable thereafter.
    pub authority: AuthorityId,
    pub usdc_balance: u64,
    pub usdt_balance: u64,
    pub pyusd_balance: u64,
    pub total_value_usd: u64,
    /// Oracle time of the most recent mutation.
    pub last_rebalance: i64,
    /// Lifecycle flag, reserved: no operation currently reads or clears it.
    pub is_active: bool,
}

impl Treasury {
    /// A freshly created snapshot: all balances zero, stamped `now`.
    pub open spec fn fresh(authority: AuthorityId, now: i64) -> Treasury {
        Treasury {
            authority,
            usdc_balance: 0,
            usdt_balance: 0,
            pyusd_balance: 0,
            total_value_usd: 0,
            last_rebalance: now,
            is_active: true,
        }
    }

    /// The snapshot after a successful update: the four numeric fields
    /// overwritten, the timestamp refreshed, everything else untouched.
    pub open spec fn updated(
        self,
        usdc_balance: u64,
        usdt_balance: u64,
        pyusd_balance: u64,
        total_value_usd: u64,
        now: i64,
    ) -> Treasury {
        Treasury {
            usdc_balance,
            usdt_balance,
            pyusd_balance,
            total_value_usd,
            last_rebalance: now,
            ..self
        }
    }

    /// Create the snapshot for `authority` with all balances zero.
    /// `now` is the oracle time of creation.
    pub fn initialize(authority: AuthorityId, now: i64) -> (t: Treasury)
        ensures
            t == Treasury::fresh(authority, now),
    {
        Treasury {
            authority,
            usdc_balance: 0,
            usdt_balance: 0,
            pyusd_balance: 0,
            total_value_usd: 0,
            last_rebalance: now,
            is_active: true,
        }
    }

    /// Overwrite the balance fields after a swap or deposit, provided the
    /// caller is the stored authority. A rejected call changes nothing.
    pub fn update(
        &mut self,
        caller: AuthorityId,
        usdc_balance: u64,
        usdt_balance: u64,
        pyusd_balance: u64,
        total_value_usd: u64,
        now: i64,
    ) -> (r: Result<(), StableGuardError>)
        ensures
            r is Ok <==> caller == old(self).authority,
            r is Ok ==> *final(self) == old(self).updated(
                usdc_balance,
                usdt_balance,
                pyusd_balance,
                total_value_usd,
                now,
            ),
            r is Err ==> r == Err::<(), StableGuardError>(StableGuardError::Unauthorized)
                && *final(self) == *old(self),
    {
        if caller != self.authority {
            return Err(StableGuardError::Unauthorized);
        }
        self.usdc_balance = usdc_balance;
        self.usdt_balance = usdt_balance;
        self.pyusd_balance = pyusd_balance;
        self.total_value_usd = total_value_usd;
        self.last_rebalance = now;
        Ok(())
    }
}

} // verus!
