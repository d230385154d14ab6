use stableguard::audit_log::{ActionEntry, ActionLog};
use stableguard::error::StableGuardError;
use stableguard::identity::AuthorityId;
use stableguard::risk_config::RiskConfig;
use stableguard::store::{
    GuardStore, InitializeActionLog, InitializeRiskConfig, InitializeTreasury, LogAction,
    UpdateRiskConfig, UpdateTreasury,
};
use stableguard::treasury::Treasury;

fn auth(w: u64) -> AuthorityId {
    AuthorityId::from_word(w)
}

fn monitor_append(
    store: &mut GuardStore,
    owner: AuthorityId,
    amount: u64,
    now: i64,
) -> Result<(), StableGuardError> {
    store.log_action(
        LogAction { action_log: owner, authority: owner },
        0,
        0,
        0,
        amount,
        10,
        String::from("routine check"),
        now,
    )
}

#[test]
fn fresh_treasury_is_zeroed() {
    let a = auth(1);
    let mut store = GuardStore::new();
    assert_eq!(store.initialize_treasury(InitializeTreasury { authority: a }, 111), Ok(()));
    let t = store.get_treasury(a).expect("treasury must exist");
    assert_eq!(t.authority, a);
    assert_eq!(t.usdc_balance, 0);
    assert_eq!(t.usdt_balance, 0);
    assert_eq!(t.pyusd_balance, 0);
    assert_eq!(t.total_value_usd, 0);
    assert_eq!(t.last_rebalance, 111);
    assert!(t.is_active);
}

#[test]
fn treasury_reinit_fails_already_exists() {
    let a = auth(1);
    let mut store = GuardStore::new();
    assert_eq!(store.initialize_treasury(InitializeTreasury { authority: a }, 111), Ok(()));
    assert_eq!(
        store.update_treasury(UpdateTreasury { treasury: a, authority: a }, 5, 6, 7, 18, 222),
        Ok(())
    );
    let before = *store.get_treasury(a).unwrap();
    assert_eq!(
        store.initialize_treasury(InitializeTreasury { authority: a }, 333),
        Err(StableGuardError::AlreadyExists)
    );
    assert_eq!(*store.get_treasury(a).unwrap(), before);
}

#[test]
fn action_log_reinit_fails_already_exists() {
    let a = auth(4);
    let mut store = GuardStore::new();
    assert_eq!(store.initialize_action_log(InitializeActionLog { authority: a }), Ok(()));
    assert_eq!(monitor_append(&mut store, a, 42, 50), Ok(()));
    assert_eq!(
        store.initialize_action_log(InitializeActionLog { authority: a }),
        Err(StableGuardError::AlreadyExists)
    );
    let log = store.get_action_log(a).unwrap();
    assert_eq!(log.total_actions, 1);
    assert_eq!(log.count, 1);
    assert_eq!(log.entries[0].amount, 42);
}

#[test]
fn risk_config_reinit_fails_already_exists() {
    let a = auth(5);
    let mut store = GuardStore::new();
    assert_eq!(
        store.initialize_risk_config(InitializeRiskConfig { authority: a }, 50, 70, 90),
        Ok(())
    );
    let before = *store.get_risk_config(a).unwrap();
    assert_eq!(
        store.initialize_risk_config(InitializeRiskConfig { authority: a }, 1, 2, 3),
        Err(StableGuardError::AlreadyExists)
    );
    assert_eq!(*store.get_risk_config(a).unwrap(), before);
}

#[test]
fn update_treasury_overwrites_and_stamps() {
    let a = auth(1);
    let mut store = GuardStore::new();
    store.initialize_treasury(InitializeTreasury { authority: a }, 100).unwrap();
    assert_eq!(
        store.update_treasury(
            UpdateTreasury { treasury: a, authority: a },
            1_000_000,
            2_000_000,
            3_000_000,
            6_000_000,
            200,
        ),
        Ok(())
    );
    let t = store.get_treasury(a).unwrap();
    assert_eq!(t.usdc_balance, 1_000_000);
    assert_eq!(t.usdt_balance, 2_000_000);
    assert_eq!(t.pyusd_balance, 3_000_000);
    assert_eq!(t.total_value_usd, 6_000_000);
    assert_eq!(t.last_rebalance, 200);
    assert_eq!(t.authority, a);
    assert!(t.is_active);
}

#[test]
fn update_treasury_by_other_identity_unauthorized() {
    let a = auth(1);
    let intruder = auth(2);
    let mut store = GuardStore::new();
    store.initialize_treasury(InitializeTreasury { authority: a }, 100).unwrap();
    let before = *store.get_treasury(a).unwrap();
    assert_eq!(
        store.update_treasury(UpdateTreasury { treasury: a, authority: intruder }, 9, 9, 9, 27, 999),
        Err(StableGuardError::Unauthorized)
    );
    assert_eq!(*store.get_treasury(a).unwrap(), before);
}

#[test]
fn update_treasury_absent_not_found() {
    let a = auth(1);
    let mut store = GuardStore::new();
    assert_eq!(
        store.update_treasury(UpdateTreasury { treasury: a, authority: a }, 1, 2, 3, 6, 100),
        Err(StableGuardError::NotFound)
    );
}

#[test]
fn fresh_action_log_is_empty() {
    let a = auth(1);
    let mut store = GuardStore::new();
    assert_eq!(store.initialize_action_log(InitializeActionLog { authority: a }), Ok(()));
    let log = store.get_action_log(a).unwrap();
    assert_eq!(log.authority, a);
    assert_eq!(log.entries.len(), 0);
    assert_eq!(log.count, 0);
    assert_eq!(log.head, 0);
    assert_eq!(log.total_actions, 0);
}

#[test]
fn append_tracks_counters() {
    let a = auth(1);
    let mut store = GuardStore::new();
    store.initialize_action_log(InitializeActionLog { authority: a }).unwrap();
    for n in 1..=25u64 {
        assert_eq!(monitor_append(&mut store, a, n, n as i64), Ok(()));
        let log = store.get_action_log(a).unwrap();
        assert_eq!(log.total_actions, n);
        assert_eq!(u64::from(log.count), n.min(20));
        if n <= 20 {
            assert_eq!(log.head, 0);
        } else {
            assert_eq!(u64::from(log.head), (n - 20) % 20);
        }
    }
}

#[test]
fn twenty_first_append_overwrites_slot_zero() {
    let a = auth(1);
    let mut store = GuardStore::new();
    store.initialize_action_log(InitializeActionLog { authority: a }).unwrap();
    for n in 1..=20u64 {
        monitor_append(&mut store, a, n, n as i64).unwrap();
    }
    assert_eq!(store.get_action_log(a).unwrap().head, 0);
    monitor_append(&mut store, a, 21, 21).unwrap();
    let log = store.get_action_log(a).unwrap();
    assert_eq!(log.head, 1);
    assert_eq!(log.entries[0].amount, 21);
    assert_eq!(log.entries[1].amount, 2);
    // After 20 + k appends the slot overwritten last is (k - 1) mod 20.
    for k in 2..=23u64 {
        monitor_append(&mut store, a, 20 + k, (20 + k) as i64).unwrap();
        let log = store.get_action_log(a).unwrap();
        let overwritten = ((k - 1) % 20) as usize;
        assert_eq!(log.entries[overwritten].amount, 20 + k);
        assert_eq!(u64::from(log.head), k % 20);
    }
}

#[test]
fn ring_scenario_twenty_five_monitor_entries() {
    let a = auth(7);
    let mut store = GuardStore::new();
    store.initialize_action_log(InitializeActionLog { authority: a }).unwrap();
    for n in 1..=25u64 {
        store
            .log_action(
                LogAction { action_log: a, authority: a },
                0,
                0,
                0,
                n,
                5,
                String::from("monitor"),
                n as i64,
            )
            .unwrap();
    }
    let log = store.get_action_log(a).unwrap();
    assert_eq!(log.total_actions, 25);
    assert_eq!(log.count, 20);
    assert_eq!(log.head, 5);
    // Slot 0 was rewritten by append number 21.
    assert_eq!(log.entries[0].amount, 21);
    assert_eq!(log.entries[0].timestamp, 21);
    assert_eq!(log.entries[0].action_type, 0);
}

#[test]
fn details_length_boundary() {
    let a = auth(1);
    let mut store = GuardStore::new();
    store.initialize_action_log(InitializeActionLog { authority: a }).unwrap();
    let ok_details = "x".repeat(200);
    assert_eq!(
        store.log_action(LogAction { action_log: a, authority: a }, 1, 0, 1, 5, 80, ok_details, 10),
        Ok(())
    );
    let log = store.get_action_log(a).unwrap();
    assert_eq!(log.entries[0].details.len(), 200);
    let (count, head, total) = (log.count, log.head, log.total_actions);

    let long_details = "x".repeat(201);
    assert_eq!(
        store.log_action(LogAction { action_log: a, authority: a }, 1, 0, 1, 5, 80, long_details, 11),
        Err(StableGuardError::DetailsTooLong)
    );
    let log = store.get_action_log(a).unwrap();
    assert_eq!(log.count, count);
    assert_eq!(log.head, head);
    assert_eq!(log.total_actions, total);
    assert_eq!(log.entries.len(), 1);
    assert_eq!(log.entries[0].timestamp, 10);
}

#[test]
fn log_action_by_other_identity_unauthorized() {
    let a = auth(1);
    let intruder = auth(3);
    let mut store = GuardStore::new();
    store.initialize_action_log(InitializeActionLog { authority: a }).unwrap();
    assert_eq!(
        store.log_action(
            LogAction { action_log: a, authority: intruder },
            2,
            0,
            1,
            5,
            80,
            String::from("forged"),
            10,
        ),
        Err(StableGuardError::Unauthorized)
    );
    let log = store.get_action_log(a).unwrap();
    assert_eq!(log.total_actions, 0);
    assert_eq!(log.count, 0);
}

#[test]
fn log_action_absent_not_found() {
    let a = auth(1);
    let mut store = GuardStore::new();
    assert_eq!(
        store.log_action(
            LogAction { action_log: a, authority: a },
            0,
            0,
            0,
            1,
            1,
            String::new(),
            1,
        ),
        Err(StableGuardError::NotFound)
    );
}

#[test]
fn risk_config_scenario_update_keeps_weights() {
    let a = auth(9);
    let mut store = GuardStore::new();
    assert_eq!(
        store.initialize_risk_config(InitializeRiskConfig { authority: a }, 50, 70, 90),
        Ok(())
    );
    let c = store.get_risk_config(a).unwrap();
    assert_eq!(
        (c.alert_threshold, c.rebalance_threshold, c.emergency_threshold),
        (50, 70, 90)
    );
    assert_eq!(
        (c.price_weight, c.liquidity_weight, c.volume_weight, c.whale_weight),
        (40, 30, 20, 10)
    );
    assert!(c.is_active);

    assert_eq!(
        store.update_risk_config(UpdateRiskConfig { risk_config: a, authority: a }, 60, 75, 95),
        Ok(())
    );
    let c = store.get_risk_config(a).unwrap();
    assert_eq!(
        (c.alert_threshold, c.rebalance_threshold, c.emergency_threshold),
        (60, 75, 95)
    );
    assert_eq!(
        (c.price_weight, c.liquidity_weight, c.volume_weight, c.whale_weight),
        (40, 30, 20, 10)
    );
    assert!(c.is_active);
    assert_eq!(c.authority, a);
}

#[test]
fn update_risk_config_by_other_identity_unauthorized() {
    let a = auth(1);
    let intruder = auth(2);
    let mut store = GuardStore::new();
    store
        .initialize_risk_config(InitializeRiskConfig { authority: a }, 50, 70, 90)
        .unwrap();
    let before = *store.get_risk_config(a).unwrap();
    assert_eq!(
        store.update_risk_config(UpdateRiskConfig { risk_config: a, authority: intruder }, 1, 2, 3),
        Err(StableGuardError::Unauthorized)
    );
    assert_eq!(*store.get_risk_config(a).unwrap(), before);
}

#[test]
fn update_risk_config_absent_not_found() {
    let a = auth(1);
    let mut store = GuardStore::new();
    assert_eq!(
        store.update_risk_config(UpdateRiskConfig { risk_config: a, authority: a }, 1, 2, 3),
        Err(StableGuardError::NotFound)
    );
}

#[test]
fn records_of_different_authorities_do_not_interact() {
    let a = auth(1);
    let b = auth(2);
    let mut store = GuardStore::new();
    store.initialize_treasury(InitializeTreasury { authority: a }, 10).unwrap();
    store.initialize_treasury(InitializeTreasury { authority: b }, 20).unwrap();
    store
        .update_treasury(UpdateTreasury { treasury: b, authority: b }, 7, 8, 9, 24, 30)
        .unwrap();
    let ta = store.get_treasury(a).unwrap();
    let tb = store.get_treasury(b).unwrap();
    assert_eq!(ta.usdc_balance, 0);
    assert_eq!(ta.last_rebalance, 10);
    assert_eq!(tb.usdc_balance, 7);
    assert_eq!(tb.last_rebalance, 30);
}

#[test]
fn treasury_record_update_requires_owner() {
    let a = auth(1);
    let intruder = auth(2);
    let mut t = Treasury::initialize(a, 5);
    assert_eq!(t.update(intruder, 1, 2, 3, 6, 9), Err(StableGuardError::Unauthorized));
    assert_eq!(t, Treasury::initialize(a, 5));
    assert_eq!(t.update(a, 1, 2, 3, 6, 9), Ok(()));
    assert_eq!(t.usdc_balance, 1);
    assert_eq!(t.last_rebalance, 9);
}

#[test]
fn risk_config_record_update_requires_owner() {
    let a = auth(1);
    let intruder = auth(2);
    let mut c = RiskConfig::initialize(a, 50, 70, 90);
    assert_eq!(c.update(intruder, 1, 2, 3), Err(StableGuardError::Unauthorized));
    assert_eq!(c, RiskConfig::initialize(a, 50, 70, 90));
    assert_eq!(c.update(a, 51, 71, 91), Ok(()));
    assert_eq!(c.alert_threshold, 51);
    assert_eq!(c.whale_weight, 10);
}

#[test]
fn action_log_record_append_requires_owner_and_length() {
    let a = auth(1);
    let intruder = auth(2);
    let mut log = ActionLog::initialize(a);
    assert_eq!(
        log.append(intruder, 0, 0, 0, 1, 1, String::from("no"), 1),
        Err(StableGuardError::Unauthorized)
    );
    assert_eq!(log.total_actions, 0);
    assert_eq!(
        log.append(a, 0, 0, 0, 1, 1, "y".repeat(201), 1),
        Err(StableGuardError::DetailsTooLong)
    );
    assert_eq!(log.total_actions, 0);
    assert_eq!(log.append(a, 3, 2, 1, 4, 255, String::from("exit"), 8), Ok(()));
    assert_eq!(log.total_actions, 1);
    let e = &log.entries[0];
    assert_eq!(
        (e.timestamp, e.action_type, e.from_token, e.to_token, e.amount, e.risk_score),
        (8, 3, 2, 1, 4, 255)
    );
    assert_eq!(e.details, "exit");
}

#[test]
fn entry_length_limit_counts_characters() {
    let a = auth(1);
    let mut log = ActionLog::initialize(a);
    // 200 two-byte characters: within the character limit even though the
    // byte length is 400.
    let details = "é".repeat(200);
    assert_eq!(log.append(a, 0, 0, 0, 1, 1, details, 1), Ok(()));
    assert_eq!(log.count, 1);
}

#[test]
fn max_entries_matches_capacity() {
    assert_eq!(ActionLog::MAX_ENTRIES, 20);
    assert_eq!(ActionEntry::MAX_DETAILS, 200);
}
