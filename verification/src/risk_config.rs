use vstd::prelude::*;

use crate::error::StableGuardError;
use crate::identity::AuthorityId;

verus! {

/// Risk thresholds and scoring weights owned by one authority.
///
/// The three thresholds are byte-range severity cut points chosen by the
/// caller; no ordering among them is enforced here. The four weights are
/// fixed at creation and never change for the record's lifetime.
#[derive(Clone, Copy, PartialEq, Eq, Structural, Debug)]
pub struct RiskConfig {
    /// Owning identity, set once at creation and immutable thereafter.
    pub authority: AuthorityId,
    pub alert_threshold: u8,
    pub rebalance_threshold: u8,
    pub emergency_threshold: u8,
    pub price_weight: u8,
    pub liquidity_weight: u8,
    pub volume_weight: u8,
    pub whale_weight: u8,
    /// Lifecycle flag, reserved: set true at creation, never toggled.
    pub is_active: bool,
}

impl RiskConfig {
    /// A freshly created configuration: the supplied thresholds and the
    /// fixed weights {40, 30, 20, 10}.
    pub open spec fn fresh(
        authority: AuthorityId,
        alert_threshold: u8,
        rebalance_threshold: u8,
        emergency_threshold: u8,
    ) -> RiskConfig {
        RiskConfig {
            authority,
            alert_threshold,
            rebalance_threshold,
            emergency_threshold,
            price_weight: 40,
            liquidity_weight: 30,
            volume_weight: 20,
            whale_weight: 10,
            is_active: true,
        }
    }

    /// The configuration after a successful update: only the three
    /// threshold fields overwritten, weights and flag untouched.
    pub open spec fn with_thresholds(
        self,
        alert_threshold: u8,
        rebalance_threshold: u8,
        emergency_threshold: u8,
    ) -> RiskConfig {
        RiskConfig { alert_threshold, rebalance_threshold, emergency_threshold, ..self }
    }

    /// Create the configuration for `authority` with the supplied
    /// thresholds and the fixed weights.
    pub fn initialize(
        authority: AuthorityId,
        alert_threshold: u8,
        rebalance_threshold: u8,
        emergency_threshold: u8,
    ) -> (c: RiskConfig)
        ensures
            c == RiskConfig::fresh(
                authority,
                alert_threshold,
                rebalance_threshold,
                emergency_threshold,
            ),
    {
        RiskConfig {
            authority,
            alert_threshold,
            rebalance_threshold,
            emergency_threshold,
            price_weight: 40,
            liquidity_weight: 30,
            volume_weight: 20,
            whale_weight: 10,
            is_active: true,
        }
    }

    /// Overwrite the three thresholds, provided the caller is the stored
    /// authority. Weights and `is_active` never change; a rejected call
    /// changes nothing.
    pub fn update(
        &mut self,
        caller: AuthorityId,
        alert_threshold: u8,
        rebalance_threshold: u8,
        emergency_threshold: u8,
    ) -> (r: Result<(), StableGuardError>)
        ensures
            r is Ok <==> caller == old(self).authority,
            r is Ok ==> *final(self) == old(self).with_thresholds(
                alert_threshold,
                rebalance_threshold,
                emergency_threshold,
            ),
            r is Err ==> r == Err::<(), StableGuardError>(StableGuardError::Unauthorized)
                && *final(self) == *old(self),
    {
        if caller != self.authority {
            return Err(StableGuardError::Unauthorized);
        }
        self.alert_threshold = alert_threshold;
        self.rebalance_threshold = rebalance_threshold;
        self.emergency_threshold = emergency_threshold;
        Ok(())
    }
}

} // verus!
