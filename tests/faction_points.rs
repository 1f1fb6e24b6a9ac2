use blendizzard::errors::Error;
use blendizzard::faction_points::{
    amount_multiplier, calculate_faction_points, is_large_withdrawal, materialize_epoch_player,
    time_multiplier, AMOUNT_SCALAR, TIME_SCALAR,
};
use blendizzard::fixed_point::SCALAR_7;
use blendizzard::types::{Player, PlayerRecord, PlayerV0, PlayerV1, EpochPlayerRecord, EpochPlayerV0, EpochPlayer};

#[test]
fn amount_multiplier_values() {
    assert_eq!(amount_multiplier(0), Ok(SCALAR_7));
    // At the amount scalar the multiplier is exactly 1.5.
    assert_eq!(amount_multiplier(AMOUNT_SCALAR), Ok(15_000_000));
    // 500 units: 1 + 500 / 1500, rounded down at seven decimals.
    assert_eq!(amount_multiplier(500_0000000), Ok(13_333_333));
}

#[test]
fn time_multiplier_values() {
    assert_eq!(time_multiplier(0), SCALAR_7);
    assert_eq!(time_multiplier(TIME_SCALAR), 15_000_000);
    assert!(time_multiplier(u64::MAX) < 2 * SCALAR_7);
    assert!(time_multiplier(10 * TIME_SCALAR) > time_multiplier(TIME_SCALAR));
}

#[test]
fn faction_points_values() {
    // 1000 units, fresh: 1000 * 1.5 * 1.0
    assert_eq!(calculate_faction_points(1000_0000000, 0), Ok(1500_0000000));
    // 1000 units held for the time scalar: 1000 * 1.5 * 1.5
    assert_eq!(calculate_faction_points(1000_0000000, TIME_SCALAR), Ok(2250_0000000));
    // 500 units, fresh: floor(500e7 * 13_333_333 / 1e7)
    assert_eq!(calculate_faction_points(500_0000000, 0), Ok(666_6666500));
    assert_eq!(calculate_faction_points(0, 1000), Ok(0));
    assert_eq!(calculate_faction_points(-5, 1000), Ok(0));
}

#[test]
fn faction_points_overflow_fails_closed() {
    assert_eq!(calculate_faction_points(i128::MAX, 0), Err(Error::OverflowError));
    assert_eq!(amount_multiplier(i128::MAX), Err(Error::OverflowError));
}

#[test]
fn higher_deposit_yields_more_points() {
    let small = calculate_faction_points(200_0000000, 0).unwrap();
    let large = calculate_faction_points(1000_0000000, 0).unwrap();
    assert!(large > small);
}

#[test]
fn withdrawal_threshold_is_half() {
    assert_eq!(is_large_withdrawal(1000, 500), Ok(true));
    assert_eq!(is_large_withdrawal(1000, 501), Ok(false));
    assert_eq!(is_large_withdrawal(1001, 500), Ok(true));
    assert_eq!(is_large_withdrawal(1001, 501), Ok(false));
    assert_eq!(is_large_withdrawal(0, 0), Ok(false));
    assert_eq!(is_large_withdrawal(1000_0000000, 400_0000000), Ok(true));
}

#[test]
fn reset_drops_time_bonus_at_materialization() {
    let start: u64 = 1_000_000;
    let now = start + 10 * 24 * 60 * 60;
    let player = Player {
        selected_faction: 0,
        time_multiplier_start: start,
        last_epoch_balance: 1000_0000000,
    };
    // 40% of the reference left: the anchor moves to now.
    let (after_reset, entry) = materialize_epoch_player(player, 400_0000000, now).unwrap();
    assert_eq!(after_reset.time_multiplier_start, now);
    assert_eq!(after_reset.last_epoch_balance, 400_0000000);
    assert_eq!(entry.available_fp, calculate_faction_points(400_0000000, 0).unwrap());
    let with_bonus = calculate_faction_points(400_0000000, now - start).unwrap();
    assert!(entry.available_fp < with_bonus);
}

#[test]
fn small_withdrawal_keeps_anchor_at_materialization() {
    let start: u64 = 1_000_000;
    let now = start + 10 * 24 * 60 * 60;
    let player = Player {
        selected_faction: 2,
        time_multiplier_start: start,
        last_epoch_balance: 1000_0000000,
    };
    let (kept, entry) = materialize_epoch_player(player, 600_0000000, now).unwrap();
    assert_eq!(kept.time_multiplier_start, start);
    assert_eq!(entry.epoch_faction, Some(2));
    assert_eq!(entry.total_fp_contributed, 0);
    assert_eq!(entry.epoch_balance_snapshot, 600_0000000);
    assert_eq!(entry.available_fp, calculate_faction_points(600_0000000, now - start).unwrap());
}

#[test]
fn first_evaluation_anchors_at_now() {
    let player = Player { selected_faction: 1, time_multiplier_start: 0, last_epoch_balance: 0 };
    let (p, entry) = materialize_epoch_player(player, 1000_0000000, 777).unwrap();
    assert_eq!(p.time_multiplier_start, 777);
    assert_eq!(entry.available_fp, 1500_0000000);
}

#[test]
fn test_player_v1_migration() {
    let old = PlayerRecord::V1(PlayerV1 {
        selected_faction: 1,
        deposit_timestamp: 54321,
        last_epoch_balance: 5000,
    });
    let migrated = old.into_current();
    assert_eq!(migrated.selected_faction, 1);
    assert_eq!(migrated.time_multiplier_start, 54321);
    assert_eq!(migrated.last_epoch_balance, 5000);
}

#[test]
fn player_v0_migration_has_no_reference_balance() {
    let old = PlayerRecord::V0(PlayerV0 { selected_faction: 2, total_deposited: 999, deposit_timestamp: 12 });
    let migrated = old.into_current();
    assert_eq!(
        migrated,
        Player { selected_faction: 2, time_multiplier_start: 12, last_epoch_balance: 0 }
    );
}

#[test]
fn test_epoch_player_migration() {
    let old = EpochPlayerRecord::V0(EpochPlayerV0 {
        epoch_faction: Some(0),
        epoch_balance_snapshot: 10000,
        available_fp: 2000,
        locked_fp: 500,
        total_fp_contributed: 1500,
    });
    assert_eq!(
        old.into_current(),
        EpochPlayer {
            epoch_faction: Some(0),
            epoch_balance_snapshot: 10000,
            available_fp: 2000,
            total_fp_contributed: 1500,
        }
    );
}

#[test]
fn test_large_withdrawal_resets_timestamp() {
    let start: u64 = 5_000;
    let player = Player { selected_faction: 0, time_multiplier_start: start, last_epoch_balance: 1000_0000000 };
    let now = start + 86400;
    // 600 of 1000 withdrawn: 400 left.
    let (p, entry) = materialize_epoch_player(player, 400_0000000, now).unwrap();
    assert_eq!(p.last_epoch_balance, 400_0000000);
    assert_eq!(p.time_multiplier_start, now);
    assert_eq!(entry.epoch_balance_snapshot, 400_0000000);
}

#[test]
fn test_small_withdrawal_no_reset() {
    let start: u64 = 5_000;
    let player = Player { selected_faction: 0, time_multiplier_start: start, last_epoch_balance: 1000_0000000 };
    // 400 of 1000 withdrawn: 600 left.
    let (p, _) = materialize_epoch_player(player, 600_0000000, start + 86400).unwrap();
    assert_eq!(p.last_epoch_balance, 600_0000000);
    assert_eq!(p.time_multiplier_start, start);
}
