use blendizzard::blendizzard::Blendizzard;
use blendizzard::errors::Error;
use blendizzard::types::{Config, GameOutcome};

const ADMIN: u64 = 1;
const GAME: u64 = 10;
const T0: u64 = 1_000;

fn create_blendizzard_contract(epoch_duration: u64) -> Blendizzard {
    let config = Config { fee_vault: 2, soroswap_router: 3, blnd_token: 4, usdc_token: 5, epoch_duration };
    Blendizzard::new(ADMIN, config, vec![1], T0).unwrap()
}

fn outcome(session_id: u32, player1: u64, player2: u64, winner: bool) -> GameOutcome {
    GameOutcome { game_id: GAME, session_id, player1, player2, winner }
}

#[test]
fn test_epoch_initialization() {
    let client = create_blendizzard_contract(100);
    let epoch = client.get_epoch(None).unwrap();
    assert_eq!(epoch.epoch_number, 0);
    assert!(!epoch.is_finalized);
    assert_eq!(epoch.reward_pool, 0);
}

#[test]
fn test_epoch_cycle_timing() {
    let epoch_duration = 100;
    let mut client = create_blendizzard_contract(epoch_duration);
    let epoch_0 = client.get_epoch(None).unwrap();
    let start_time = epoch_0.start_time;
    let end_time = epoch_0.end_time;
    assert_eq!(end_time - start_time, epoch_duration);
    assert!(client.cycle_epoch(start_time, 0, 0).is_err());
    assert_eq!(client.check_cycle(end_time - 1), Err(Error::EpochNotReady));
    assert_eq!(client.check_cycle(end_time + 1), Ok(0));
}

#[test]
fn test_cannot_cycle_already_finalized() {
    let mut client = create_blendizzard_contract(100);
    let now = T0 + 101;
    assert_eq!(client.cycle_epoch(now, 0, 0), Ok(1));
    assert!(client.get_epoch(Some(0)).unwrap().is_finalized);
    // Epoch 0 is finalized; a second call at once meets epoch 1, not yet over.
    assert_eq!(client.cycle_epoch(now, 0, 0), Err(Error::EpochNotReady));
    assert_eq!(client.current_epoch(), 1);
}

#[test]
fn test_winning_faction_determined_by_standings() {
    let mut client = create_blendizzard_contract(345_600);
    let (alice, bob, carol) = (100, 200, 300);
    client.add_game(GAME);
    client.select_faction(alice, 0).unwrap();
    client.select_faction(bob, 1).unwrap();
    client.select_faction(carol, 0).unwrap();

    client.start_game(GAME, 1, alice, bob, 100_0000000, 100_0000000, 1000_0000000, 1000_0000000, T0).unwrap();
    client.end_game(GAME, 1, &[], outcome(1, alice, bob, true)).unwrap();
    client.start_game(GAME, 2, carol, bob, 50_0000000, 50_0000000, 500_0000000, 1000_0000000, T0).unwrap();
    client.end_game(GAME, 2, &[], outcome(2, carol, bob, true)).unwrap();

    for p in [alice, bob, carol] {
        assert!(client.get_epoch_player(p, 0, T0).unwrap().epoch_faction.is_some());
    }
    let epoch = client.get_epoch(None).unwrap();
    let faction_0_fp = epoch.faction_standings.get(0);
    let faction_1_fp = epoch.faction_standings.get(1);
    assert!(faction_0_fp > 0, "Faction 0 should have fp from wins");
    assert_eq!(faction_1_fp, 0, "Faction 1 should have 0 fp (lost all games)");
    assert!(faction_0_fp > faction_1_fp, "Faction 0 should have more fp");
    assert_eq!(faction_0_fp, 150_0000000);
    assert_eq!(client.check_cycle(T0 + 345_600), Ok(0));
}

#[test]
fn test_epoch_cycle_no_yield_scenario() {
    let mut client = create_blendizzard_contract(345_600);
    let (alice, bob) = (100, 200);
    client.add_game(GAME);
    client.select_faction(alice, 0).unwrap();
    client.select_faction(bob, 1).unwrap();
    client.start_game(GAME, 1, alice, bob, 50_0000000, 50_0000000, 500_0000000, 500_0000000, T0).unwrap();
    // No yield: the payout balance does not move.
    assert_eq!(client.cycle_epoch(T0 + 345_601, 0, 0), Ok(1));
    assert_eq!(client.get_epoch(Some(0)).unwrap().reward_pool, 0);
}

#[test]
fn test_full_epoch_cycle_with_soroswap() {
    let mut client = create_blendizzard_contract(100);
    let (alice, bob) = (100, 200);
    client.add_game(GAME);
    client.select_faction(alice, 0).unwrap();
    client.select_faction(bob, 1).unwrap();
    client.start_game(GAME, 1, alice, bob, 100_0000000, 100_0000000, 1000_0000000, 1000_0000000, T0).unwrap();
    // The swap of 1000 harvested tokens brought in 997 of the payout token.
    let new_epoch_num = client.cycle_epoch(T0 + 101, 0, 997_0000000).unwrap();
    assert_eq!(new_epoch_num, 1);
    let new_epoch = client.get_epoch(Some(1)).unwrap();
    assert_eq!(new_epoch.epoch_number, 1);
    assert!(!new_epoch.is_finalized);
    assert_eq!(client.get_epoch(Some(0)).unwrap().reward_pool, 997_0000000);
}

#[test]
fn test_reward_pool_set_after_cycle() {
    let mut client = create_blendizzard_contract(345_600);
    client.add_game(GAME);
    client.select_faction(100, 0).unwrap();
    client.select_faction(200, 1).unwrap();
    assert_eq!(client.get_epoch(None).unwrap().reward_pool, 0);
    client.cycle_epoch(T0 + 345_601, 0, 100_0000000).unwrap();
    assert!(client.get_epoch(Some(0)).unwrap().reward_pool > 0);
}

#[test]
fn test_usdc_balance_delta_calculation() {
    let mut client = create_blendizzard_contract(100);
    let pre_balance: i128 = 500_0000000;
    // The contract held 500 before the swap; the swap added 250.
    client.cycle_epoch(T0 + 101, pre_balance, pre_balance + 250_0000000).unwrap();
    assert_eq!(client.get_epoch(Some(0)).unwrap().reward_pool, 250_0000000);
}

#[test]
fn test_epoch_not_ready_error() {
    let mut client = create_blendizzard_contract(345_600);
    let result = client.cycle_epoch(T0, 0, 0);
    assert_eq!(result, Err(Error::EpochNotReady));
}

#[test]
fn test_epoch_with_no_games_played() {
    let mut client = create_blendizzard_contract(345_600);
    assert_eq!(client.cycle_epoch(T0 + 345_601, 0, 0), Ok(1));
    assert_eq!(client.get_epoch(Some(0)).unwrap().winning_faction, Some(0));
}

#[test]
fn test_multiple_epoch_cycles() {
    let short_duration = 50;
    let mut client = create_blendizzard_contract(short_duration);
    let mut now = T0;
    for expected in 1..=3u32 {
        now += short_duration + 1;
        assert_eq!(client.cycle_epoch(now, 0, 0), Ok(expected));
    }
    assert_eq!(client.current_epoch(), 3);
}

#[test]
fn test_faction_standings_persist_across_queries() {
    let mut client = create_blendizzard_contract(345_600);
    let (alice, bob) = (100, 200);
    client.add_game(GAME);
    client.select_faction(alice, 0).unwrap();
    client.select_faction(bob, 1).unwrap();
    client.start_game(GAME, 1, alice, bob, 100_0000000, 100_0000000, 1000_0000000, 1000_0000000, T0).unwrap();
    let standings1 = client.get_epoch(Some(0)).unwrap().faction_standings;
    let standings2 = client.get_epoch(Some(0)).unwrap().faction_standings;
    assert_eq!(standings1, standings2);
}
