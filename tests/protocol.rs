use blendizzard::blendizzard::Blendizzard;
use blendizzard::errors::Error;
use blendizzard::faction_points::calculate_faction_points;
use blendizzard::types::{Config, GameOutcome, PlayerRecord, PlayerV1};

const ADMIN: u64 = 1;
const GAME: u64 = 10;
const ALICE: u64 = 100;
const BOB: u64 = 200;
const CAROL: u64 = 300;
const DURATION: u64 = 345_600;
const T0: u64 = 1_000;

fn config() -> Config {
    Config { fee_vault: 2, soroswap_router: 3, blnd_token: 4, usdc_token: 5, epoch_duration: DURATION }
}

fn setup() -> Blendizzard {
    let mut b = Blendizzard::new(ADMIN, config(), vec![1], T0).unwrap();
    b.add_game(GAME);
    b
}

fn outcome(session_id: u32, player1: u64, player2: u64, winner: bool) -> GameOutcome {
    GameOutcome { game_id: GAME, session_id, player1, player2, winner }
}

#[test]
fn new_fails_when_end_time_overflows() {
    assert!(matches!(Blendizzard::new(ADMIN, config(), vec![], u64::MAX), Err(Error::OverflowError)));
}

#[test]
fn test_invalid_faction() {
    let mut b = setup();
    assert_eq!(b.select_faction(ALICE, 99), Err(Error::InvalidFaction));
    assert_eq!(b.get_player(ALICE), Err(Error::PlayerNotFound));
}

#[test]
fn migration_brings_old_record_current_once() {
    let mut b = setup();
    let old = PlayerRecord::V1(PlayerV1 { selected_faction: 2, deposit_timestamp: 54321, last_epoch_balance: 5000 });
    assert!(b.migrate_player(ALICE, Some(old)));
    let p = b.get_player(ALICE).unwrap();
    assert_eq!(p.time_multiplier_start, 54321);
    assert_eq!(p.last_epoch_balance, 5000);
    assert!(!b.migrate_player(ALICE, Some(old)));
}

#[test]
fn epoch_player_requires_a_selection() {
    let b = setup();
    assert_eq!(b.get_epoch_player(ALICE, 1000, T0), Err(Error::FactionNotSelected));
}

#[test]
fn start_game_rejections() {
    let mut b = setup();
    b.select_faction(ALICE, 0).unwrap();
    b.select_faction(BOB, 1).unwrap();
    let big: i128 = 1000_0000000;
    assert_eq!(b.start_game(99, 1, ALICE, BOB, 100, 100, big, big, T0), Err(Error::GameNotWhitelisted));
    assert_eq!(b.start_game(GAME, 1, ALICE, BOB, 0, 100, big, big, T0), Err(Error::InvalidAmount));
    assert_eq!(b.start_game(GAME, 1, ALICE, BOB, 100, -1, big, big, T0), Err(Error::InvalidAmount));
    assert_eq!(b.start_game(GAME, 1, ALICE, ALICE, 100, 100, big, big, T0), Err(Error::PlayersNotDistinct));
    assert_eq!(b.start_game(GAME, 1, ALICE, CAROL, 100, 100, big, big, T0), Err(Error::FactionNotSelected));
    assert_eq!(b.start_game(GAME, 1, ALICE, BOB, i128::MAX, 100, big, big, T0), Err(Error::InsufficientFactionPoints));
    // Nothing was stored by the failed attempts.
    assert_eq!(b.get_epoch_player(ALICE, big, T0).unwrap().epoch_faction, None);
}

#[test]
fn end_game_rejections() {
    let mut b = setup();
    b.select_faction(ALICE, 0).unwrap();
    b.select_faction(BOB, 1).unwrap();
    assert_eq!(b.end_game(GAME, 5, &[], outcome(5, ALICE, BOB, true)), Err(Error::SessionNotFound));
    b.start_game(GAME, 5, ALICE, BOB, 100, 100, 1000_0000000, 1000_0000000, T0).unwrap();
    assert_eq!(b.end_game(GAME, 5, &[], outcome(5, BOB, ALICE, true)), Err(Error::InvalidGameOutcome));
    assert_eq!(b.end_game(GAME, 5, &[], outcome(6, ALICE, BOB, true)), Err(Error::InvalidGameOutcome));
    assert_eq!(b.end_game(11, 5, &[], outcome(5, ALICE, BOB, true)), Err(Error::GameNotWhitelisted));
    // Another listed game cannot settle this game's session.
    b.add_game(11);
    assert_eq!(b.end_game(11, 5, &[], outcome(5, ALICE, BOB, true)), Err(Error::InvalidGameOutcome));
    assert_eq!(b.end_game(GAME, 5, &[], outcome(5, ALICE, BOB, true)), Ok(()));
    assert_eq!(b.end_game(GAME, 5, &[], outcome(5, ALICE, BOB, true)), Err(Error::SessionNotFound));
}

#[test]
fn tie_goes_to_lowest_faction_id() {
    let mut b = setup();
    b.select_faction(ALICE, 1).unwrap();
    b.select_faction(BOB, 2).unwrap();
    let big: i128 = 1000_0000000;
    b.start_game(GAME, 1, ALICE, BOB, 10, 10, big, big, T0).unwrap();
    b.end_game(GAME, 1, &[], outcome(1, ALICE, BOB, true)).unwrap();
    b.start_game(GAME, 2, ALICE, BOB, 10, 10, big, big, T0).unwrap();
    b.end_game(GAME, 2, &[], outcome(2, ALICE, BOB, false)).unwrap();
    assert_eq!(b.check_cycle(T0 + DURATION), Ok(1));
}

fn played_epoch() -> Blendizzard {
    // Alice and Carol on faction 0 beat Bob on faction 1; the epoch is then
    // finalized with a pool of 1000.
    let mut b = setup();
    b.select_faction(ALICE, 0).unwrap();
    b.select_faction(BOB, 1).unwrap();
    b.select_faction(CAROL, 0).unwrap();
    let big: i128 = 1000_0000000;
    b.start_game(GAME, 1, ALICE, BOB, 10, 30, big, big, T0).unwrap();
    b.end_game(GAME, 1, &[], outcome(1, ALICE, BOB, true)).unwrap();
    b.start_game(GAME, 2, CAROL, BOB, 10, 60, big, big, T0).unwrap();
    b.end_game(GAME, 2, &[], outcome(2, CAROL, BOB, true)).unwrap();
    b.cycle_epoch(T0 + DURATION, 0, 1000).unwrap();
    b
}

#[test]
fn test_claim_epoch_reward_shares_pool() {
    let mut b = played_epoch();
    // Faction 0 total 90: Alice 30/90, Carol 60/90 of 1000, rounded down.
    assert_eq!(b.claim_epoch_reward(ALICE, 0), Ok(333));
    assert_eq!(b.claim_epoch_reward(CAROL, 0), Ok(666));
    assert_eq!(b.claim_epoch_reward(ALICE, 0), Err(Error::RewardAlreadyClaimed));
}

#[test]
fn claims_need_a_finalized_epoch_and_no_pause() {
    let mut b = played_epoch();
    assert_eq!(b.claim_epoch_reward(ALICE, 1), Err(Error::EpochNotFinalized));
    assert_eq!(b.claim_epoch_reward(ALICE, 7), Err(Error::EpochNotFinalized));
    b.pause();
    assert_eq!(b.claim_epoch_reward(ALICE, 0), Err(Error::ContractPaused));
}

#[test]
fn winner_without_contribution_cannot_claim() {
    let mut b = setup();
    b.select_faction(ALICE, 0).unwrap();
    b.select_faction(BOB, 1).unwrap();
    b.select_faction(CAROL, 0).unwrap();
    let big: i128 = 1000_0000000;
    b.start_game(GAME, 1, ALICE, BOB, 10, 30, big, big, T0).unwrap();
    b.end_game(GAME, 1, &[], outcome(1, ALICE, BOB, true)).unwrap();
    // Carol is locked to faction 0 but loses her only session.
    b.start_game(GAME, 2, CAROL, BOB, 10, 5, big, big, T0).unwrap();
    b.end_game(GAME, 2, &[], outcome(2, CAROL, BOB, false)).unwrap();
    b.cycle_epoch(T0 + DURATION, 0, 1000).unwrap();
    assert_eq!(b.get_epoch(Some(0)).unwrap().winning_faction, Some(0));
    assert_eq!(b.claim_epoch_reward(CAROL, 0), Err(Error::NoRewardsAvailable));
    assert_eq!(b.claim_epoch_reward(ALICE, 0), Ok(1000));
}

#[test]
fn settling_after_the_epoch_closed_fails() {
    let mut b = setup();
    b.select_faction(ALICE, 0).unwrap();
    b.select_faction(BOB, 1).unwrap();
    b.start_game(GAME, 1, ALICE, BOB, 10, 10, 1000_0000000, 1000_0000000, T0).unwrap();
    b.cycle_epoch(T0 + DURATION, 0, 0).unwrap();
    assert_eq!(b.end_game(GAME, 1, &[], outcome(1, ALICE, BOB, true)), Err(Error::InvalidSessionState));
}


#[test]
fn lock_sets_only_the_faction() {
    let mut b = setup();
    assert_eq!(b.lock_epoch_faction(ALICE), Err(Error::FactionNotSelected));
    b.select_faction(ALICE, 0).unwrap();
    let before = b.get_player(ALICE).unwrap();
    assert_eq!(b.lock_epoch_faction(ALICE), Ok(0));
    // A new record: faction locked, everything else 0; the player record unchanged.
    assert_eq!(
        b.epoch_record(0, ALICE),
        Some(blendizzard::types::EpochPlayer {
            epoch_faction: Some(0),
            epoch_balance_snapshot: 0,
            available_fp: 0,
            total_fp_contributed: 0,
        })
    );
    assert_eq!(b.get_player(ALICE).unwrap(), before);
    // Locking again after another selection returns the first faction.
    b.select_faction(ALICE, 2).unwrap();
    assert_eq!(b.lock_epoch_faction(ALICE), Ok(0));
    assert_eq!(b.epoch_record(0, ALICE).unwrap().epoch_faction, Some(0));
}

#[test]
fn first_session_after_lock_computes_points_and_keeps_lock() {
    let mut b = setup();
    b.select_faction(ALICE, 0).unwrap();
    b.select_faction(BOB, 1).unwrap();
    b.lock_epoch_faction(ALICE).unwrap();
    b.select_faction(ALICE, 2).unwrap();
    // Before the first session the points are previewed with the lock.
    let preview = b.get_epoch_player(ALICE, 1000_0000000, T0).unwrap();
    assert_eq!(preview.epoch_faction, Some(0));
    // The anchor is still 0: the preview counts the holding from 0.
    assert_eq!(preview.available_fp, calculate_faction_points(1000_0000000, T0).unwrap());
    b.start_game(GAME, 1, ALICE, BOB, 100, 100, 1000_0000000, 1000_0000000, T0).unwrap();
    let rec = b.get_epoch_player(ALICE, 0, T0).unwrap();
    assert_eq!(rec.epoch_faction, Some(0));
    assert_eq!(rec.available_fp, 1500_0000000 - 100);
    assert_eq!(rec.epoch_balance_snapshot, 1000_0000000);
    assert_eq!(b.get_player(ALICE).unwrap().time_multiplier_start, T0);
}

#[test]
fn removed_game_cannot_settle() {
    let mut b = setup();
    b.select_faction(ALICE, 0).unwrap();
    b.select_faction(BOB, 1).unwrap();
    b.start_game(GAME, 1, ALICE, BOB, 100, 100, 1000_0000000, 1000_0000000, T0).unwrap();
    b.remove_game(GAME);
    assert_eq!(b.end_game(GAME, 1, &[], outcome(1, ALICE, BOB, true)), Err(Error::GameNotWhitelisted));
    b.add_game(GAME);
    assert_eq!(b.end_game(GAME, 1, &[], outcome(1, ALICE, BOB, true)), Ok(()));
}

#[test]
fn stale_session_stays_pending() {
    let mut b = setup();
    b.select_faction(ALICE, 0).unwrap();
    b.select_faction(BOB, 1).unwrap();
    b.start_game(GAME, 1, ALICE, BOB, 10, 10, 1000_0000000, 1000_0000000, T0).unwrap();
    b.cycle_epoch(T0 + DURATION, 0, 0).unwrap();
    assert_eq!(b.end_game(GAME, 1, &[], outcome(1, ALICE, BOB, true)), Err(Error::InvalidSessionState));
    assert_eq!(
        b.start_game(GAME, 1, ALICE, BOB, 10, 10, 1000_0000000, 1000_0000000, T0 + DURATION),
        Err(Error::SessionAlreadyExists)
    );
}

#[test]
fn preview_uses_stored_anchor_without_reset() {
    let mut b = Blendizzard::new(ADMIN, config(), vec![1], 0).unwrap();
    let stored = PlayerRecord::V1(PlayerV1 { selected_faction: 1, deposit_timestamp: 1, last_epoch_balance: 20_000_000_000 });
    assert!(b.migrate_player(ALICE, Some(stored)));
    let preview = b.get_epoch_player(ALICE, 10_000_000_000, 3_024_001).unwrap();
    // Half the reference balance, yet the preview keeps the time bonus.
    assert_eq!(preview.available_fp, 22_500_000_000);
    assert_eq!(preview.epoch_faction, None);
    assert_eq!(preview.epoch_balance_snapshot, 10_000_000_000);
    assert_eq!(preview.total_fp_contributed, 0);
    assert_eq!(b.epoch_record(0, ALICE), None);
    assert_eq!(b.get_player(ALICE).unwrap().time_multiplier_start, 1);
}
