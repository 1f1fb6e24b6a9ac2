//! Laws that relate several operations of the protocol, stated over the
//! transitions the operations' own contracts name.
use crate::blendizzard::{reward_delta, reward_share, BlendizzardView};
use crate::errors::Error;
use crate::faction_points::{
    spec_age, spec_amount_multiplier, spec_faction_points, spec_is_large_withdrawal,
    spec_refreshed_anchor, spec_time_multiplier, AMOUNT_SCALAR, TIME_SCALAR,
};
use crate::fixed_point::SCALAR_7;
use crate::types::{is_valid_faction, Player};
use vstd::arithmetic::div_mod::{lemma_div_is_ordered, lemma_fundamental_div_mod, lemma_mod_bound};
use vstd::prelude::*;

verus! {

/// Selecting a valid faction is read back from the player record, whatever
/// the player selected before.
pub proof fn selection_reads_back(s: BlendizzardView, player: u64, earlier: u32, faction: u32)
    requires
        is_valid_faction(faction),
    ensures
        s.selected(player, faction).players.contains_key(player),
        s.selected(player, faction).players[player].selected_faction == faction,
        s.selected(player, earlier).selected(player, faction).players[player].selected_faction
            == faction,
{
}

/// Operations that keep every selection compose: a run of them keeps every
/// selection too.
pub proof fn selections_kept_through_runs(a: BlendizzardView, b: BlendizzardView, c: BlendizzardView)
    requires
        a.keeps_selections(b),
        b.keeps_selections(c),
    ensures
        a.keeps_selections(c),
{
}

/// Selecting a valid faction is read back after any run of the other
/// operations (sessions, settlements, locks, epoch cycles, claims), each of
/// which keeps every selection by its contract.
pub proof fn selection_survives_other_operations(
    s: BlendizzardView,
    player: u64,
    faction: u32,
    later: BlendizzardView,
)
    requires
        is_valid_faction(faction),
        s.selected(player, faction).keeps_selections(later),
    ensures
        later.players.contains_key(player),
        later.players[player].selected_faction == faction,
{
    assert(s.selected(player, faction).players.contains_key(player));
}

/// Operations that keep every lock compose.
pub proof fn locks_kept_through_runs(a: BlendizzardView, b: BlendizzardView, c: BlendizzardView)
    requires
        a.keeps_locks(b),
        b.keeps_locks(c),
    ensures
        a.keeps_locks(c),
{
}

/// A faction locked for the epoch in progress stays locked for the rest of
/// that epoch: every operation keeps locks by its contract, selecting a
/// faction included.
pub proof fn lock_survives_the_epoch(s: BlendizzardView, player: u64, later: BlendizzardView)
    requires
        s.lock_of(player) is Some,
        s.keeps_locks(later),
        later.current_epoch == s.current_epoch,
    ensures
        later.lock_of(player) == s.lock_of(player),
{
    assert(s.epoch_players.contains_key((s.current_epoch, player)));
}

/// Locking sets the selection as the faction and nothing else; a second
/// lock, after any selection, returns the first one and changes nothing.
pub proof fn lock_is_idempotent(s: BlendizzardView, player: u64, faction: u32)
    requires
        s.players.contains_key(player),
    ensures
        s.with_lock(player).lock_of(player) == Some(s.locked_faction(player)),
        s.with_lock(player).players == s.players,
        s.with_lock(player).selected(player, faction).locked_faction(player) == s.locked_faction(
            player,
        ),
        s.with_lock(player).selected(player, faction).with_lock(player) == s.with_lock(
            player,
        ).selected(player, faction),
{
}

/// A player's first session of an epoch applies the withdrawal reset: with
/// the vault balance at or below half of the last recorded one, the anchor
/// moves to now, the new balance is recorded, and the points are those of a
/// fresh holding, less the wager.
pub proof fn first_session_applies_reset(
    s: BlendizzardView,
    game_id: u64,
    session_id: u32,
    player1: u64,
    player2: u64,
    player1_wager: i128,
    player2_wager: i128,
    player1_balance: i128,
    player2_balance: i128,
    now: u64,
)
    requires
        s.start_game_check(game_id, session_id, player1, player2, player1_wager, player2_wager)
            is None,
        !s.is_evaluated(player1),
        spec_is_large_withdrawal(
            s.players[player1].last_epoch_balance as int,
            player1_balance as int,
        ),
    ensures
        ({
            let s1 = s.started(
                game_id,
                session_id,
                player1,
                player2,
                player1_wager,
                player2_wager,
                player1_balance,
                player2_balance,
                now,
            );
            &&& s1.players[player1].time_multiplier_start == now
            &&& s1.players[player1].last_epoch_balance == player1_balance
            &&& s1.epoch_players[(s.current_epoch, player1)].available_fp == (spec_faction_points(
                player1_balance as int,
                0,
            ) as i128 - player1_wager) as i128
        }),
{
}

/// Once a player's faction is locked for the epoch in progress, selecting
/// another faction leaves the lock as it was for the rest of the epoch; the
/// next epoch locks the new selection.
pub proof fn lock_outlives_selection(
    s: BlendizzardView,
    player: u64,
    balance: i128,
    now: u64,
    faction: u32,
    later_balance: i128,
    later: u64,
    cycle_time: u64,
    before: i128,
    after: i128,
    next_balance: i128,
    next_time: u64,
)
    requires
        s.wf(),
        s.players.contains_key(player),
        s.current_epoch < u32::MAX,
    ensures
        ({
            let locked = s.entry(player, balance, now).1.epoch_faction;
            let reselected = s.with_entry(player, balance, now).selected(player, faction);
            &&& locked is Some
            &&& reselected.has_entry(player)
            &&& reselected.epoch_players[(s.current_epoch, player)].epoch_faction == locked
            &&& reselected.entry(player, later_balance, later).1.epoch_faction == locked
            &&& reselected.cycled(cycle_time, before, after).entry(
                player,
                next_balance,
                next_time,
            ).1.epoch_faction == Some(faction)
        }),
{
    let reselected = s.with_entry(player, balance, now).selected(player, faction);
    let next = reselected.cycled(cycle_time, before, after);
    assert(!next.has_entry(player)) by {
        if next.has_entry(player) {
            assert(reselected.epoch_players.contains_key(((s.current_epoch + 1) as u32, player)));
            assert(s.epoch_players.contains_key(((s.current_epoch + 1) as u32, player)));
        }
    }
}

/// A session moves points without creating any: starting it takes both
/// wagers out of the players' available points; settling it gives both back
/// to the winner and nothing to the loser; the winner's faction standing
/// grows by the loser's wager alone, not by the pot.
pub proof fn session_conserves_points(
    s: BlendizzardView,
    game_id: u64,
    session_id: u32,
    player1: u64,
    player2: u64,
    player1_wager: i128,
    player2_wager: i128,
    player1_balance: i128,
    player2_balance: i128,
    now: u64,
    player1_won: bool,
)
    requires
        s.start_game_check(game_id, session_id, player1, player2, player1_wager, player2_wager)
            is None,
        s.entry(player1, player1_balance, now).1.available_fp >= player1_wager,
        s.entry(player2, player2_balance, now).1.available_fp >= player2_wager,
        s.started(
            game_id,
            session_id,
            player1,
            player2,
            player1_wager,
            player2_wager,
            player1_balance,
            player2_balance,
            now,
        ).settle_records_present(session_id, player1_won),
        s.started(
            game_id,
            session_id,
            player1,
            player2,
            player1_wager,
            player2_wager,
            player1_balance,
            player2_balance,
            now,
        ).settle_fits(session_id, player1_won),
    ensures
        ({
            let cur = s.current_epoch;
            let s1 = s.started(
                game_id,
                session_id,
                player1,
                player2,
                player1_wager,
                player2_wager,
                player1_balance,
                player2_balance,
                now,
            );
            let s2 = s1.settled(session_id, player1_won);
            let e1 = s.entry(player1, player1_balance, now).1;
            let e2 = s.entry(player2, player2_balance, now).1;
            let (winner, loser, loser_wager) = if player1_won {
                (player1, player2, player2_wager)
            } else {
                (player2, player1, player1_wager)
            };
            let f = s1.epoch_players[(cur, winner)].epoch_faction->Some_0;
            &&& (e1.available_fp - s1.epoch_players[(cur, player1)].available_fp) + (
            e2.available_fp - s1.epoch_players[(cur, player2)].available_fp) == player1_wager
                + player2_wager
            &&& s2.epoch_players[(cur, winner)].available_fp - s1.epoch_players[(
            cur,
            winner,
            )].available_fp == player1_wager + player2_wager
            &&& s2.epoch_players[(cur, loser)].available_fp == s1.epoch_players[(
            cur,
            loser,
            )].available_fp
            &&& s2.epoch_players[(cur, winner)].total_fp_contributed == s1.epoch_players[(
            cur,
            winner,
            )].total_fp_contributed + loser_wager
            &&& s2.epochs[cur].faction_standings.spec_get(f) == s.epochs[cur].faction_standings.spec_get(
                f,
            ) + loser_wager
            &&& forall|g: u32|
                g != f ==> #[trigger] s2.epochs[cur].faction_standings.spec_get(g)
                    == s.epochs[cur].faction_standings.spec_get(g)
        }),
{
}

/// While a session is pending its id is taken: a second start with the same
/// id by the same game fails with `SessionAlreadyExists`.
pub proof fn pending_session_id_is_taken(
    s: BlendizzardView,
    game_id: u64,
    session_id: u32,
    player1: u64,
    player2: u64,
    player1_wager: i128,
    player2_wager: i128,
    player1_balance: i128,
    player2_balance: i128,
    now: u64,
    other1: u64,
    other2: u64,
    other1_wager: i128,
    other2_wager: i128,
)
    requires
        s.start_game_check(game_id, session_id, player1, player2, player1_wager, player2_wager)
            is None,
    ensures
        s.started(
            game_id,
            session_id,
            player1,
            player2,
            player1_wager,
            player2_wager,
            player1_balance,
            player2_balance,
            now,
        ).start_game_check(game_id, session_id, other1, other2, other1_wager, other2_wager)
            == Some(Error::SessionAlreadyExists),
{
}

/// Finalizing an epoch records the measured balance change as its reward
/// pool, opens a new epoch, and cannot be repeated at once: a second call at
/// the same time fails with `EpochNotReady` while epochs have a duration.
/// The finalized record then never changes (see `keeps_history` in every
/// operation's contract).
pub proof fn finalization_happens_once(s: BlendizzardView, now: u64, before: i128, after: i128)
    requires
        s.wf(),
        s.cycle_check(now) is None,
        s.cycle_fits(now, before, after),
        s.config.epoch_duration > 0,
    ensures
        ({
            let s1 = s.cycled(now, before, after);
            &&& s1.wf()
            &&& s1.epochs[s.current_epoch].is_finalized
            &&& s1.epochs[s.current_epoch].reward_pool == reward_delta(before as int, after as int)
            &&& before <= after ==> s1.epochs[s.current_epoch].reward_pool == after - before
            &&& s1.cycle_check(now) == Some(Error::EpochNotReady)
        }),
{
    let s1 = s.cycled(now, before, after);
    assert forall|k: (u32, u64)| #[trigger] s1.epoch_players.contains_key(k) implies k.0
        <= s1.current_epoch by {
        assert(s.epoch_players.contains_key(k));
    }
    assert forall|e: u32| #[trigger] s1.epochs.contains_key(e) implies e <= s1.current_epoch by {
        if e != s1.current_epoch && e != s.current_epoch {
            assert(s.epochs.contains_key(e));
        }
    }
}

/// A claim can be made once: after it succeeds, the same claim fails with
/// `RewardAlreadyClaimed`.
pub proof fn claim_happens_once(s: BlendizzardView, player: u64, epoch: u32)
    requires
        s.claim_check(player, epoch) is None,
    ensures
        (BlendizzardView { claimed: s.claimed.insert((player, epoch)), ..s }).claim_check(
            player,
            epoch,
        ) == Some(Error::RewardAlreadyClaimed),
{
}

/// Outside the winning faction, or without a contribution, a claim on a
/// finalized epoch fails.
pub proof fn only_winning_contributors_claim(s: BlendizzardView, player: u64, epoch: u32)
    requires
        !s.paused,
        s.epochs.contains_key(epoch),
        s.epochs[epoch].is_finalized,
        !s.claimed.contains((player, epoch)),
    ensures
        !s.epoch_players.contains_key((epoch, player)) || s.epoch_players[(
        epoch,
        player,
        )].epoch_faction != s.epochs[epoch].winning_faction ==> s.claim_check(player, epoch)
            == Some(Error::NotWinningFaction),
        s.epoch_players.contains_key((epoch, player)) && s.epoch_players[(
        epoch,
        player,
        )].epoch_faction == s.epochs[epoch].winning_faction && s.epochs[epoch].winning_faction
            is Some && s.epoch_players[(epoch, player)].total_fp_contributed <= 0 ==> s.claim_check(
            player,
            epoch,
        ) == Some(Error::NoRewardsAvailable),
{
}

pub open spec fn total_of(cs: Seq<int>) -> int
    decreases cs.len(),
{
    if cs.len() == 0 {
        0
    } else {
        total_of(cs.drop_last()) + cs.last()
    }
}

/// What claims by contributors `cs` of a faction with total `total` pay.
pub open spec fn paid_out(pool: int, cs: Seq<int>, total: int) -> int
    decreases cs.len(),
{
    if cs.len() == 0 {
        0
    } else {
        paid_out(pool, cs.drop_last(), total) + reward_share(pool, cs.last(), total)
    }
}

proof fn lemma_share_bound(pool: int, c: int, t: int)
    requires
        pool >= 0,
        c >= 0,
        t > 0,
    ensures
        t * reward_share(pool, c, t) <= pool * c,
        reward_share(pool, c, t) >= 0,
{
    let s = SCALAR_7 as int;
    let q = c * s / t;
    assert(c * s >= 0) by (nonlinear_arith)
        requires
            c >= 0,
            s > 0,
    ;
    lemma_fundamental_div_mod(c * s, t);
    lemma_mod_bound(c * s, t);
    assert(q * t <= c * s) by (nonlinear_arith)
        requires
            c * s == t * q + (c * s) % t,
            0 <= (c * s) % t,
    ;
    lemma_div_is_ordered(0, c * s, t);
    assert(pool * q >= 0) by (nonlinear_arith)
        requires
            pool >= 0,
            q >= 0,
    ;
    let r = pool * q / s;
    lemma_fundamental_div_mod(pool * q, s);
    lemma_mod_bound(pool * q, s);
    lemma_div_is_ordered(0, pool * q, s);
    assert(r * s <= pool * q) by (nonlinear_arith)
        requires
            pool * q == s * r + (pool * q) % s,
            0 <= (pool * q) % s,
    ;
    assert(r * s * t <= pool * q * t) by (nonlinear_arith)
        requires
            r * s <= pool * q,
            t > 0,
    ;
    assert(pool * q * t <= pool * c * s) by (nonlinear_arith)
        requires
            q * t <= c * s,
            pool >= 0,
    ;
    assert(t * r <= pool * c) by (nonlinear_arith)
        requires
            r * s * t <= pool * c * s,
            s > 0,
    ;
}

proof fn lemma_paid_out_bound(pool: int, cs: Seq<int>, total: int)
    requires
        pool >= 0,
        total > 0,
        forall|i: int| 0 <= i < cs.len() ==> cs[i] >= 0,
    ensures
        total * paid_out(pool, cs, total) <= pool * total_of(cs),
    decreases cs.len(),
{
    if cs.len() > 0 {
        let init = cs.drop_last();
        assert forall|i: int| 0 <= i < init.len() implies init[i] >= 0 by {
            assert(init[i] == cs[i]);
        }
        lemma_paid_out_bound(pool, init, total);
        lemma_share_bound(pool, cs.last(), total);
        let a = paid_out(pool, init, total);
        let b = reward_share(pool, cs.last(), total);
        assert(total * (a + b) == total * a + total * b) by (nonlinear_arith);
        assert(pool * (total_of(init) + cs.last()) == pool * total_of(init) + pool * cs.last())
            by (nonlinear_arith);
    }
}

/// A single claim pays at most the claimant's exact share of the pool:
/// `amount * faction_total <= pool * contribution`.
pub proof fn claim_within_share(s: BlendizzardView, player: u64, epoch: u32)
    requires
        s.claim_check(player, epoch) is None,
        s.epochs[epoch].reward_pool >= 0,
    ensures
        s.faction_total(epoch) * s.claim_amount(player, epoch) <= s.epochs[epoch].reward_pool
            * s.epoch_players[(epoch, player)].total_fp_contributed,
        s.claim_amount(player, epoch) >= 0,
{
    lemma_share_bound(
        s.epochs[epoch].reward_pool as int,
        s.epoch_players[(epoch, player)].total_fp_contributed as int,
        s.faction_total(epoch) as int,
    );
}

/// Claims never pay out more than the pool: for contributions that add up
/// to at most the faction's total, the rounded-down shares add up to at most
/// the reward pool.
pub proof fn claims_stay_within_pool(pool: int, cs: Seq<int>, total: int)
    requires
        pool >= 0,
        total > 0,
        forall|i: int| 0 <= i < cs.len() ==> cs[i] >= 0,
        total_of(cs) <= total,
    ensures
        paid_out(pool, cs, total) <= pool,
{
    lemma_paid_out_bound(pool, cs, total);
    assert(pool * total_of(cs) <= pool * total) by (nonlinear_arith)
        requires
            pool >= 0,
            total_of(cs) <= total,
    ;
    assert(paid_out(pool, cs, total) <= pool) by (nonlinear_arith)
        requires
            total * paid_out(pool, cs, total) <= pool * total,
            total > 0,
    ;
}

/// The withdrawal-reset rule: against a reference balance, a balance at or
/// below half of it moves the time-multiplier anchor to now, so the time
/// bonus is gone; a balance above half leaves the anchor where it was.
pub proof fn reset_follows_threshold(player: Player, balance: i128, now: u64)
    requires
        player.time_multiplier_start != 0,
    ensures
        spec_is_large_withdrawal(player.last_epoch_balance as int, balance as int)
            ==> spec_refreshed_anchor(player, balance, now) == now && spec_age(
            spec_refreshed_anchor(player, balance, now),
            now,
        ) == 0,
        !spec_is_large_withdrawal(player.last_epoch_balance as int, balance as int)
            ==> spec_refreshed_anchor(player, balance, now) == player.time_multiplier_start,
{
}

/// Losing the time bonus never raises a player's points: points at age 0
/// are at most the points after any holding time.
pub proof fn reset_forfeits_time_bonus(balance: int, age: int)
    requires
        age >= 0,
    ensures
        spec_faction_points(balance, 0) <= spec_faction_points(balance, age),
        spec_time_multiplier(0) == SCALAR_7,
        spec_time_multiplier(0) <= spec_time_multiplier(age),
{
    let s = SCALAR_7 as int;
    assert(age * s >= 0) by (nonlinear_arith)
        requires
            age >= 0,
            s > 0,
    ;
    lemma_div_is_ordered(0, age * s, age + TIME_SCALAR as int);
    assert(0int * s / (0int + TIME_SCALAR as int) == 0);
    if balance > 0 {
        let am = spec_amount_multiplier(balance);
        assert(balance * s >= 0) by (nonlinear_arith)
            requires
                balance > 0,
                s > 0,
        ;
        lemma_div_is_ordered(0, balance * s, balance + AMOUNT_SCALAR as int);
        assert(balance * am >= 0) by (nonlinear_arith)
            requires
                balance > 0,
                am >= s,
                s > 0,
        ;
        let x = balance * am / s;
        lemma_div_is_ordered(0, balance * am, s);
        let tm = spec_time_multiplier(age);
        assert(x * s <= x * tm) by (nonlinear_arith)
            requires
                x >= 0,
                s <= tm,
        ;
        lemma_div_is_ordered(x * s, x * tm, s);
    }
}

} // verus!
