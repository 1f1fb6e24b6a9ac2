//! The protocol's state and its operations: faction registry, point ledger,
//! session coordinator, epoch lifecycle and reward distribution.
//!
//! Accounts are named by the host's integer ids. What the host observes
//! outside this state (the current time, vault balances, the payout-token
//! balance around a swap) is handed in by the caller. Every operation either
//! succeeds whole or fails and leaves the state as it was.
use crate::errors::Error;
use crate::faction_points::{
    calculate_faction_points, materialize_epoch_player, spec_age, spec_epoch_entry,
    spec_evaluated_player, spec_faction_points, MAX_FP_BALANCE,
};
use crate::fixed_point::{fits_i128, fixed_div_floor, fixed_mul_floor, SCALAR_7};
use crate::types::{
    is_valid_faction, Config, EpochInfo, EpochPlayer, Faction, GameOutcome, GameSession, Player,
    PlayerRecord, SessionStatus, Standings,
};
use std::collections::{HashMap, HashSet};
use vstd::prelude::*;

verus! {

broadcast use vstd::std_specs::hash::group_hash_axioms;

/// 2^64: an epoch number is packed above a player id in one `u128` key.
pub const KEY_SHIFT: u128 = 18_446_744_073_709_551_616;

pub open spec fn spec_record_key(epoch: u32, player: u64) -> u128 {
    (epoch as int * KEY_SHIFT as int + player as int) as u128
}

fn record_key(epoch: u32, player: u64) -> (r: u128)
    ensures
        r == spec_record_key(epoch, player),
{
    (epoch as u128) * KEY_SHIFT + (player as u128)
}

proof fn lemma_record_key_injective(ea: u32, pa: u64, eb: u32, pb: u64)
    ensures
        spec_record_key(ea, pa) == spec_record_key(eb, pb) ==> ea == eb && pa == pb,
{
}

/// Epoch records keyed by (epoch, player), seen through their packed keys.
pub open spec fn epoch_records_view(m: Map<u128, EpochPlayer>) -> Map<(u32, u64), EpochPlayer> {
    Map::new(
        |k: (u32, u64)| m.contains_key(spec_record_key(k.0, k.1)),
        |k: (u32, u64)| m[spec_record_key(k.0, k.1)],
    )
}

/// Claim markers keyed by (player, epoch), seen through their packed keys.
pub open spec fn claims_view(s: Set<u128>) -> Set<(u64, u32)> {
    Set::new(|k: (u64, u32)| s.contains(spec_record_key(k.1, k.0)))
}

/// Markers keyed by (epoch, player), seen through their packed keys.
pub open spec fn records_set_view(s: Set<u128>) -> Set<(u32, u64)> {
    Set::new(|k: (u32, u64)| s.contains(spec_record_key(k.0, k.1)))
}

proof fn lemma_insert_record_marker(s: Set<u128>, e: u32, p: u64)
    ensures
        records_set_view(s.insert(spec_record_key(e, p))) == records_set_view(s).insert((e, p)),
{
    assert forall|k: (u32, u64)| true implies (spec_record_key(k.0, k.1) == spec_record_key(e, p)
        <==> k == (e, p)) by {
        lemma_record_key_injective(k.0, k.1, e, p);
    }
    assert(records_set_view(s.insert(spec_record_key(e, p))) =~= records_set_view(s).insert((e, p)));
}

proof fn lemma_insert_epoch_record(m: Map<u128, EpochPlayer>, e: u32, p: u64, v: EpochPlayer)
    ensures
        epoch_records_view(m.insert(spec_record_key(e, p), v)) == epoch_records_view(m).insert(
            (e, p),
            v,
        ),
{
    assert forall|k: (u32, u64)| true implies (spec_record_key(k.0, k.1) == spec_record_key(e, p)
        <==> k == (e, p)) by {
        lemma_record_key_injective(k.0, k.1, e, p);
    }
    assert(epoch_records_view(m.insert(spec_record_key(e, p), v)) =~= epoch_records_view(
        m,
    ).insert((e, p), v));
}

proof fn lemma_insert_claim(s: Set<u128>, p: u64, e: u32)
    ensures
        claims_view(s.insert(spec_record_key(e, p))) == claims_view(s).insert((p, e)),
{
    assert forall|k: (u64, u32)| true implies (spec_record_key(k.1, k.0) == spec_record_key(e, p)
        <==> k == (p, e)) by {
        lemma_record_key_injective(k.1, k.0, e, p);
    }
    assert(claims_view(s.insert(spec_record_key(e, p))) =~= claims_view(s).insert((p, e)));
}

/// What a swap added to the payout-token balance; nothing if it fell.
pub open spec fn reward_delta(before: int, after: int) -> int {
    if after > before {
        after - before
    } else {
        0
    }
}

/// A contributor's reward: its fraction `contributed / total` of the pool,
/// taken at `SCALAR_7` and rounded down, then applied to the pool and
/// rounded down again.
pub open spec fn reward_share(pool: int, contributed: int, total: int) -> int {
    pool * (contributed * SCALAR_7 / total) / SCALAR_7 as int
}

/// The protocol's state as mathematical values.
pub ghost struct BlendizzardView {
    pub admin: u64,
    pub config: Config,
    pub reserve_token_ids: Seq<u32>,
    pub paused: bool,
    pub current_epoch: u32,
    pub players: Map<u64, Player>,
    pub epoch_players: Map<(u32, u64), EpochPlayer>,
    pub epochs: Map<u32, EpochInfo>,
    pub sessions: Map<u32, GameSession>,
    pub games: Set<u64>,
    pub claimed: Set<(u64, u32)>,
    /// Epoch records whose points were computed by a first session; a record
    /// made by locking alone is not among them.
    pub evaluated: Set<(u32, u64)>,
}

impl BlendizzardView {
    /// Well-formed: the epoch in progress has its record, is not finalized,
    /// and no epoch or epoch record lies beyond it.
    pub open spec fn wf(self) -> bool {
        &&& self.epochs.contains_key(self.current_epoch)
        &&& !self.current().is_finalized
        &&& self.current().epoch_number == self.current_epoch
        &&& forall|e: u32| #[trigger] self.epochs.contains_key(e) ==> e <= self.current_epoch
        &&& forall|k: (u32, u64)| #[trigger] self.epoch_players.contains_key(k) ==> k.0 <= self.current_epoch
    }

    /// The record of the epoch in progress.
    pub open spec fn current(self) -> EpochInfo {
        self.epochs[self.current_epoch]
    }

    /// Whether `session_id` names a session still waiting for its outcome.
    pub open spec fn session_pending(self, session_id: u32) -> bool {
        self.sessions.contains_key(session_id) && self.sessions[session_id].status
            == SessionStatus::Pending
    }

    /// The state after `player` selects `faction`: its record is created
    /// with no anchor and no balance reference, or only its preference
    /// changes.
    pub open spec fn selected(self, player: u64, faction: u32) -> BlendizzardView {
        BlendizzardView {
            players: self.players.insert(
                player,
                if self.players.contains_key(player) {
                    Player { selected_faction: faction, ..self.players[player] }
                } else {
                    Player { selected_faction: faction, time_multiplier_start: 0, last_epoch_balance: 0 }
                },
            ),
            ..self
        }
    }

    /// A player's record for the epoch in progress, if any.
    pub open spec fn has_entry(self, player: u64) -> bool {
        self.epoch_players.contains_key((self.current_epoch, player))
    }

    /// Whether `player` already had its first session of the epoch in
    /// progress, so that its points there are computed.
    pub open spec fn is_evaluated(self, player: u64) -> bool {
        self.has_entry(player) && self.evaluated.contains((self.current_epoch, player))
    }

    /// The faction `player` is locked to in the epoch in progress, if any.
    pub open spec fn lock_of(self, player: u64) -> Option<u32> {
        if self.has_entry(player) {
            self.epoch_players[(self.current_epoch, player)].epoch_faction
        } else {
            None
        }
    }

    /// The player and epoch records that a session of `player` in the epoch
    /// in progress works with: the stored ones once its points are computed
    /// (with the faction locked to the selection if it was not yet), or, on
    /// its first session, the player evaluated against the vault `balance`
    /// at `now` and its fresh entry, which keeps a faction already locked.
    pub open spec fn entry(self, player: u64, balance: i128, now: u64) -> (Player, EpochPlayer) {
        let p = self.players[player];
        if self.is_evaluated(player) {
            let ep = self.epoch_players[(self.current_epoch, player)];
            if ep.epoch_faction is Some {
                (p, ep)
            } else {
                (p, EpochPlayer { epoch_faction: Some(p.selected_faction), ..ep })
            }
        } else {
            let fresh = spec_epoch_entry(p, balance, now);
            (
                spec_evaluated_player(p, balance, now),
                EpochPlayer {
                    epoch_faction: if self.lock_of(player) is Some {
                        self.lock_of(player)
                    } else {
                        fresh.epoch_faction
                    },
                    ..fresh
                },
            )
        }
    }

    /// Whether computing a first-session entry stays within the range where
    /// no step overflows.
    pub open spec fn entry_in_range(self, player: u64, balance: i128) -> bool {
        self.is_evaluated(player) || (self.players[player].last_epoch_balance <= MAX_FP_BALANCE
            && balance <= MAX_FP_BALANCE)
    }

    /// What `get_epoch_player` shows before `player`'s first session of the
    /// epoch in progress: the points of `balance` held since the stored anchor,
    /// without the withdrawal reset, and the locked faction, if any.
    pub open spec fn preview(self, player: u64, balance: i128, now: u64) -> EpochPlayer {
        EpochPlayer {
            epoch_faction: self.lock_of(player),
            epoch_balance_snapshot: balance,
            available_fp: spec_faction_points(
                balance as int,
                spec_age(self.players[player].time_multiplier_start, now),
            ) as i128,
            total_fp_contributed: 0,
        }
    }

    /// The faction that locking returns: the one already locked, else the
    /// player's selection.
    pub open spec fn locked_faction(self, player: u64) -> u32 {
        match self.lock_of(player) {
            Some(f) => f,
            None => self.players[player].selected_faction,
        }
    }

    /// The state after `player`'s faction is locked for the epoch in
    /// progress: unchanged when it already was; otherwise its epoch record
    /// gets the selection as its faction and keeps its other fields (all 0
    /// for a new record). The player record is untouched.
    pub open spec fn with_lock(self, player: u64) -> BlendizzardView {
        if self.lock_of(player) is Some {
            self
        } else {
            let faction = Some(self.players[player].selected_faction);
            BlendizzardView {
                epoch_players: self.epoch_players.insert(
                    (self.current_epoch, player),
                    if self.has_entry(player) {
                        EpochPlayer {
                            epoch_faction: faction,
                            ..self.epoch_players[(self.current_epoch, player)]
                        }
                    } else {
                        EpochPlayer {
                            epoch_faction: faction,
                            epoch_balance_snapshot: 0,
                            available_fp: 0,
                            total_fp_contributed: 0,
                        }
                    },
                ),
                ..self
            }
        }
    }

    /// The state after `player`'s entry for the epoch in progress is stored.
    pub open spec fn with_entry(self, player: u64, balance: i128, now: u64) -> BlendizzardView {
        let (p, ep) = self.entry(player, balance, now);
        BlendizzardView {
            players: self.players.insert(player, p),
            epoch_players: self.epoch_players.insert((self.current_epoch, player), ep),
            evaluated: self.evaluated.insert((self.current_epoch, player)),
            ..self
        }
    }

    /// Every player keeps its record and its selected faction.
    pub open spec fn keeps_selections(self, next: BlendizzardView) -> bool {
        forall|p: u64|
            #[trigger] self.players.contains_key(p) ==> next.players.contains_key(p)
                && next.players[p].selected_faction == self.players[p].selected_faction
    }

    /// Every faction locked for an epoch stays locked to the same faction.
    pub open spec fn keeps_locks(self, next: BlendizzardView) -> bool {
        forall|k: (u32, u64)|
            #[trigger] self.epoch_players.contains_key(k) && self.epoch_players[k].epoch_faction
                is Some ==> next.epoch_players.contains_key(k)
                && next.epoch_players[k].epoch_faction == self.epoch_players[k].epoch_faction
    }

    /// The first check that `start_game` fails, in the order it makes them.
    pub open spec fn start_game_check(
        self,
        game_id: u64,
        session_id: u32,
        player1: u64,
        player2: u64,
        player1_wager: i128,
        player2_wager: i128,
    ) -> Option<Error> {
        if self.paused {
            Some(Error::ContractPaused)
        } else if !self.games.contains(game_id) {
            Some(Error::GameNotWhitelisted)
        } else if self.session_pending(session_id) {
            Some(Error::SessionAlreadyExists)
        } else if player1_wager <= 0 || player2_wager <= 0 {
            Some(Error::InvalidAmount)
        } else if player1 == player2 {
            Some(Error::PlayersNotDistinct)
        } else if !self.players.contains_key(player1) || !self.players.contains_key(player2) {
            Some(Error::FactionNotSelected)
        } else {
            None
        }
    }

    /// The state after a session starts: both players' entries stored with
    /// their wagers taken out of their available points, and the session
    /// pending in the epoch in progress.
    pub open spec fn started(
        self,
        game_id: u64,
        session_id: u32,
        player1: u64,
        player2: u64,
        player1_wager: i128,
        player2_wager: i128,
        player1_balance: i128,
        player2_balance: i128,
        now: u64,
    ) -> BlendizzardView {
        let (q1, e1) = self.entry(player1, player1_balance, now);
        let (q2, e2) = self.entry(player2, player2_balance, now);
        let cur = self.current_epoch;
        BlendizzardView {
            players: self.players.insert(player1, q1).insert(player2, q2),
            epoch_players: self.epoch_players.insert(
                (cur, player1),
                EpochPlayer { available_fp: (e1.available_fp - player1_wager) as i128, ..e1 },
            ).insert(
                (cur, player2),
                EpochPlayer { available_fp: (e2.available_fp - player2_wager) as i128, ..e2 },
            ),
            evaluated: self.evaluated.insert((cur, player1)).insert((cur, player2)),
            sessions: self.sessions.insert(
                session_id,
                GameSession {
                    game_id,
                    session_id,
                    player1,
                    player2,
                    player1_wager,
                    player2_wager,
                    epoch: cur,
                    status: SessionStatus::Pending,
                },
            ),
            ..self
        }
    }

    /// Whether `outcome`, reported by `game_id`, is the outcome of session `s`.
    pub open spec fn outcome_matches(
        s: GameSession,
        game_id: u64,
        session_id: u32,
        outcome: GameOutcome,
    ) -> bool {
        &&& s.game_id == game_id
        &&& outcome.game_id == game_id
        &&& outcome.session_id == session_id
        &&& outcome.player1 == s.player1
        &&& outcome.player2 == s.player2
    }

    /// The winner, the loser and the loser's wager of session `s`.
    pub open spec fn sides(s: GameSession, player1_won: bool) -> (u64, u64, i128) {
        if player1_won {
            (s.player1, s.player2, s.player2_wager)
        } else {
            (s.player2, s.player1, s.player1_wager)
        }
    }

    /// Whether the records that settling session `session_id` updates are
    /// there: the session belongs to the epoch in progress, both players have
    /// entries in it, and the winner's faction is locked to a valid id.
    pub open spec fn settle_records_present(self, session_id: u32, player1_won: bool) -> bool {
        let s = self.sessions[session_id];
        let (w, l, lw) = Self::sides(s, player1_won);
        &&& s.epoch == self.current_epoch
        &&& self.epoch_players.contains_key((s.epoch, s.player1))
        &&& self.epoch_players.contains_key((s.epoch, s.player2))
        &&& self.epoch_players[(s.epoch, w)].epoch_faction matches Some(f) && is_valid_faction(f)
    }

    /// Whether the sums of settling session `session_id` fit `i128`.
    pub open spec fn settle_fits(self, session_id: u32, player1_won: bool) -> bool {
        let s = self.sessions[session_id];
        let (w, l, lw) = Self::sides(s, player1_won);
        let wr = self.epoch_players[(s.epoch, w)];
        let f = wr.epoch_faction->Some_0;
        let standing = self.epochs[s.epoch].faction_standings.spec_get(f);
        &&& fits_i128(s.player1_wager + s.player2_wager)
        &&& fits_i128(wr.available_fp + s.player1_wager + s.player2_wager)
        &&& fits_i128(wr.total_fp_contributed + lw)
        &&& fits_i128(standing + lw)
    }

    /// The state after session `session_id` is settled: the winner gets both
    /// wagers back into its available points, its contribution and its
    /// faction's standing grow by the loser's wager, and the session is
    /// settled. The loser's escrowed wager is gone.
    pub open spec fn settled(self, session_id: u32, player1_won: bool) -> BlendizzardView {
        let s = self.sessions[session_id];
        let (w, l, lw) = Self::sides(s, player1_won);
        let wr = self.epoch_players[(s.epoch, w)];
        let f = wr.epoch_faction->Some_0;
        let info = self.epochs[s.epoch];
        BlendizzardView {
            epoch_players: self.epoch_players.insert(
                (s.epoch, w),
                EpochPlayer {
                    available_fp: (wr.available_fp + s.player1_wager + s.player2_wager) as i128,
                    total_fp_contributed: (wr.total_fp_contributed + lw) as i128,
                    ..wr
                },
            ),
            epochs: self.epochs.insert(
                s.epoch,
                EpochInfo {
                    faction_standings: info.faction_standings.spec_with(
                        f,
                        (info.faction_standings.spec_get(f) + lw) as i128,
                    ),
                    ..info
                },
            ),
            sessions: self.sessions.insert(
                session_id,
                GameSession { status: SessionStatus::Settled, ..s },
            ),
            ..self
        }
    }

    /// The first check that `cycle_epoch` fails at time `now`.
    pub open spec fn cycle_check(self, now: u64) -> Option<Error> {
        if now < self.current().end_time {
            Some(Error::EpochNotReady)
        } else if self.current().is_finalized {
            Some(Error::EpochAlreadyFinalized)
        } else {
            None
        }
    }

    /// Whether the epoch after the one in progress can be numbered and timed.
    pub open spec fn cycle_fits(self, now: u64, balance_before: i128, balance_after: i128) -> bool {
        &&& self.current_epoch < u32::MAX
        &&& now + self.config.epoch_duration <= u64::MAX
        &&& fits_i128(reward_delta(balance_before as int, balance_after as int))
    }

    /// The state after the epoch in progress is finalized at `now`: it
    /// records the leading faction and, as its reward pool, what the swap
    /// added to the payout-token balance; the next epoch opens at `now`.
    pub open spec fn cycled(self, now: u64, balance_before: i128, balance_after: i128) -> BlendizzardView {
        let cur = self.current_epoch;
        let info = self.current();
        let next = (cur + 1) as u32;
        BlendizzardView {
            current_epoch: next,
            epochs: self.epochs.insert(
                cur,
                EpochInfo {
                    is_finalized: true,
                    winning_faction: Some(info.faction_standings.spec_leader()),
                    reward_pool: reward_delta(balance_before as int, balance_after as int) as i128,
                    ..info
                },
            ).insert(
                next,
                EpochInfo {
                    epoch_number: next,
                    start_time: now,
                    end_time: (now + self.config.epoch_duration) as u64,
                    faction_standings: Standings {
                        whole_noodle: 0,
                        pointy_stick: 0,
                        special_rock: 0,
                    },
                    reward_pool: 0,
                    winning_faction: None,
                    is_finalized: false,
                },
            ),
            ..self
        }
    }

    /// The first check that a claim of `player` for `epoch` fails.
    pub open spec fn claim_check(self, player: u64, epoch: u32) -> Option<Error> {
        let info = self.epochs[epoch];
        if self.paused {
            Some(Error::ContractPaused)
        } else if !self.epochs.contains_key(epoch) || !info.is_finalized {
            Some(Error::EpochNotFinalized)
        } else if self.claimed.contains((player, epoch)) {
            Some(Error::RewardAlreadyClaimed)
        } else if !self.epoch_players.contains_key((epoch, player)) || info.winning_faction is None
            || self.epoch_players[(epoch, player)].epoch_faction != info.winning_faction {
            Some(Error::NotWinningFaction)
        } else if self.epoch_players[(epoch, player)].total_fp_contributed <= 0
            || self.faction_total(epoch) <= 0 {
            Some(Error::NoRewardsAvailable)
        } else {
            None
        }
    }

    /// What the winning faction of `epoch` contributed in all.
    pub open spec fn faction_total(self, epoch: u32) -> i128 {
        let info = self.epochs[epoch];
        info.faction_standings.spec_get(info.winning_faction->Some_0)
    }

    /// Whether the fixed-point steps of a claim fit `i128`.
    pub open spec fn claim_fits(self, player: u64, epoch: u32) -> bool {
        let c = self.epoch_players[(epoch, player)].total_fp_contributed as int;
        let total = self.faction_total(epoch) as int;
        &&& fits_i128(c * SCALAR_7)
        &&& fits_i128(self.epochs[epoch].reward_pool * (c * SCALAR_7 / total))
    }

    /// The amount a claim of `player` for `epoch` pays.
    pub open spec fn claim_amount(self, player: u64, epoch: u32) -> int {
        reward_share(
            self.epochs[epoch].reward_pool as int,
            self.epoch_players[(epoch, player)].total_fp_contributed as int,
            self.faction_total(epoch) as int,
        )
    }

    /// An epoch once finalized keeps its record, and a claim once made stays.
    pub open spec fn keeps_history(self, next: BlendizzardView) -> bool {
        &&& forall|e: u32|
            self.epochs.contains_key(e) && #[trigger] self.epochs[e].is_finalized
                ==> next.epochs.contains_key(e) && next.epochs[e] == self.epochs[e]
        &&& self.claimed.subset_of(next.claimed)
    }
}

/// The protocol's state.
pub struct Blendizzard {
    admin: u64,
    config: Config,
    reserve_token_ids: Vec<u32>,
    paused: bool,
    current_epoch: u32,
    players: HashMap<u64, Player>,
    epoch_players: HashMap<u128, EpochPlayer>,
    epochs: HashMap<u32, EpochInfo>,
    sessions: HashMap<u32, GameSession>,
    games: HashSet<u64>,
    claimed: HashSet<u128>,
    evaluated: HashSet<u128>,
}

impl View for Blendizzard {
    type V = BlendizzardView;

    closed spec fn view(&self) -> BlendizzardView {
        BlendizzardView {
            admin: self.admin,
            config: self.config,
            reserve_token_ids: self.reserve_token_ids@,
            paused: self.paused,
            current_epoch: self.current_epoch,
            players: self.players@,
            epoch_players: epoch_records_view(self.epoch_players@),
            epochs: self.epochs@,
            sessions: self.sessions@,
            games: self.games@,
            claimed: claims_view(self.claimed@),
            evaluated: records_set_view(self.evaluated@),
        }
    }
}

impl Blendizzard {
    /// Well-formed: see `BlendizzardView::wf`.
    pub open spec fn wf(&self) -> bool {
        self@.wf()
    }

    /// A fresh protocol at time `now`: unpaused, no players, no games, and
    /// epoch 0 running from `now` for one epoch duration. Fails with
    /// `OverflowError` when that end time does not fit.
    pub fn new(admin: u64, config: Config, reserve_token_ids: Vec<u32>, now: u64) -> (r: Result<
        Blendizzard,
        Error,
    >)
        ensures
            r matches Ok(b) ==> {
                &&& b.wf()
                &&& b@.admin == admin
                &&& b@.config == config
                &&& b@.reserve_token_ids == reserve_token_ids@
                &&& !b@.paused
                &&& b@.current_epoch == 0
                &&& b@.epochs == map![0u32 => EpochInfo {
                    epoch_number: 0,
                    start_time: now,
                    end_time: (now + config.epoch_duration) as u64,
                    faction_standings: Standings {
                        whole_noodle: 0,
                        pointy_stick: 0,
                        special_rock: 0,
                    },
                    reward_pool: 0,
                    winning_faction: None,
                    is_finalized: false,
                }]
                &&& b@.players.is_empty()
                &&& b@.epoch_players.is_empty()
                &&& b@.sessions.is_empty()
                &&& b@.games.is_empty()
                &&& b@.claimed.is_empty()
                &&& b@.evaluated.is_empty()
            },
            r is Ok <==> now + config.epoch_duration <= u64::MAX,
            r matches Err(e) ==> e == Error::OverflowError,
    {
        let end_time = match now.checked_add(config.epoch_duration) {
            Some(t) => t,
            None => return Err(Error::OverflowError),
        };
        let mut epochs: HashMap<u32, EpochInfo> = HashMap::new();
        epochs.insert(
            0,
            EpochInfo {
                epoch_number: 0,
                start_time: now,
                end_time,
                faction_standings: Standings::zero(),
                reward_pool: 0,
                winning_faction: None,
                is_finalized: false,
            },
        );
        let b = Blendizzard {
            admin,
            config,
            reserve_token_ids,
            paused: false,
            current_epoch: 0,
            players: HashMap::new(),
            epoch_players: HashMap::new(),
            epochs,
            sessions: HashMap::new(),
            games: HashSet::new(),
            claimed: HashSet::new(),
            evaluated: HashSet::new(),
        };
        proof {
            assert(b@.epochs =~= map![0u32 => b.epochs@[0]]);
            assert(b@.epoch_players =~= Map::empty());
            assert(b@.claimed =~= Set::empty());
            assert(b@.evaluated =~= Set::empty());
        }
        Ok(b)
    }

    pub fn get_admin(&self) -> (r: u64)
        ensures
            r == self@.admin,
    {
        self.admin
    }

    /// Hands the admin role to `new_admin`.
    pub fn set_admin(&mut self, new_admin: u64)
        requires
            old(self).wf(),
        ensures
            final(self).wf(),
            final(self)@ == (BlendizzardView { admin: new_admin, ..old(self)@ }),
    {
        self.admin = new_admin;
    }

    pub fn get_config(&self) -> (r: Config)
        ensures
            r == self@.config,
    {
        self.config
    }

    /// Reserve ids whose emissions the vault claims at each finalization.
    pub fn reserve_token_ids(&self) -> (r: Vec<u32>)
        ensures
            r@ == self@.reserve_token_ids,
    {
        self.reserve_token_ids.clone()
    }

    /// Replaces each configuration value that is given and keeps the others.
    /// A new epoch duration applies from the next epoch opened.
    pub fn update_config(
        &mut self,
        new_fee_vault: Option<u64>,
        new_soroswap_router: Option<u64>,
        new_blnd_token: Option<u64>,
        new_usdc_token: Option<u64>,
        new_epoch_duration: Option<u64>,
        new_reserve_token_ids: Option<Vec<u32>>,
    )
        requires
            old(self).wf(),
        ensures
            final(self).wf(),
            final(self)@ == (BlendizzardView {
                config: Config {
                    fee_vault: match new_fee_vault {
                        Some(v) => v,
                        None => old(self)@.config.fee_vault,
                    },
                    soroswap_router: match new_soroswap_router {
                        Some(v) => v,
                        None => old(self)@.config.soroswap_router,
                    },
                    blnd_token: match new_blnd_token {
                        Some(v) => v,
                        None => old(self)@.config.blnd_token,
                    },
                    usdc_token: match new_usdc_token {
                        Some(v) => v,
                        None => old(self)@.config.usdc_token,
                    },
                    epoch_duration: match new_epoch_duration {
                        Some(v) => v,
                        None => old(self)@.config.epoch_duration,
                    },
                },
                reserve_token_ids: match new_reserve_token_ids {
                    Some(v) => v@,
                    None => old(self)@.reserve_token_ids,
                },
                ..old(self)@
            }),
    {
        if let Some(v) = new_fee_vault {
            self.config.fee_vault = v;
        }
        if let Some(v) = new_soroswap_router {
            self.config.soroswap_router = v;
        }
        if let Some(v) = new_blnd_token {
            self.config.blnd_token = v;
        }
        if let Some(v) = new_usdc_token {
            self.config.usdc_token = v;
        }
        if let Some(v) = new_epoch_duration {
            self.config.epoch_duration = v;
        }
        if let Some(v) = new_reserve_token_ids {
            self.reserve_token_ids = v;
        }
    }

    /// Emergency stop: starting sessions and claiming fail until unpaused.
    pub fn pause(&mut self)
        requires
            old(self).wf(),
        ensures
            final(self).wf(),
            final(self)@ == (BlendizzardView { paused: true, ..old(self)@ }),
    {
        self.paused = true;
    }

    pub fn unpause(&mut self)
        requires
            old(self).wf(),
        ensures
            final(self).wf(),
            final(self)@ == (BlendizzardView { paused: false, ..old(self)@ }),
    {
        self.paused = false;
    }

    pub fn is_paused(&self) -> (r: bool)
        ensures
            r == self@.paused,
    {
        self.paused
    }

    /// `ContractPaused` while paused.
    pub fn require_not_paused(&self) -> (r: Result<(), Error>)
        ensures
            r is Ok <==> !self@.paused,
            r matches Err(e) ==> e == Error::ContractPaused,
    {
        if self.paused {
            Err(Error::ContractPaused)
        } else {
            Ok(())
        }
    }

    /// Approves a game contract to start and settle sessions.
    pub fn add_game(&mut self, id: u64)
        requires
            old(self).wf(),
        ensures
            final(self).wf(),
            final(self)@ == (BlendizzardView { games: old(self)@.games.insert(id), ..old(self)@ }),
    {
        self.games.insert(id);
    }

    /// Withdraws a game contract's approval.
    pub fn remove_game(&mut self, id: u64)
        requires
            old(self).wf(),
        ensures
            final(self).wf(),
            final(self)@ == (BlendizzardView { games: old(self)@.games.remove(id), ..old(self)@ }),
    {
        self.games.remove(&id);
    }

    pub fn is_game(&self, id: u64) -> (r: bool)
        ensures
            r == self@.games.contains(id),
    {
        self.games.contains(&id)
    }

    /// Sets the player's persistent faction preference, creating the player
    /// record on first selection. The lock of the epoch in progress, if any,
    /// is untouched: the choice takes effect at the next lock.
    pub fn select_faction(&mut self, player: u64, faction: u32) -> (r: Result<(), Error>)
        requires
            old(self).wf(),
        ensures
            final(self).wf(),
            old(self)@.keeps_history(final(self)@),
            old(self)@.keeps_locks(final(self)@),
            r is Ok <==> is_valid_faction(faction),
            r matches Err(e) ==> e == Error::InvalidFaction && final(self)@ == old(self)@,
            r is Ok ==> final(self)@ == old(self)@.selected(player, faction),
    {
        if !Faction::is_valid(faction) {
            return Err(Error::InvalidFaction);
        }
        let record = match self.players.get(&player) {
            Some(p) => Player { selected_faction: faction, ..*p },
            None => Player { selected_faction: faction, time_multiplier_start: 0, last_epoch_balance: 0 },
        };
        self.players.insert(player, record);
        assert(self@.epoch_players == old(self)@.epoch_players);
        Ok(())
    }

    /// The player's persistent record; `PlayerNotFound` if it never selected
    /// a faction.
    pub fn get_player(&self, player: u64) -> (r: Result<Player, Error>)
        ensures
            r is Ok <==> self@.players.contains_key(player),
            r matches Ok(p) ==> p == self@.players[player],
            r matches Err(e) ==> e == Error::PlayerNotFound,
    {
        match self.players.get(&player) {
            Some(p) => Ok(*p),
            None => Err(Error::PlayerNotFound),
        }
    }

    /// Brings a player record found in an older stored shape into the
    /// current one. Returns whether it did: not when the player already has
    /// a current record, nor when nothing was stored.
    pub fn migrate_player(&mut self, player: u64, stored: Option<PlayerRecord>) -> (r: bool)
        requires
            old(self).wf(),
        ensures
            final(self).wf(),
            old(self)@.keeps_history(final(self)@),
            r == (!old(self)@.players.contains_key(player) && stored is Some),
            r ==> final(self)@ == (BlendizzardView {
                players: old(self)@.players.insert(player, stored->Some_0.spec_into_current()),
                ..old(self)@
            }),
            !r ==> final(self)@ == old(self)@,
    {
        if self.players.contains_key(&player) {
            return false;
        }
        match stored {
            Some(record) => {
                self.players.insert(player, record.into_current());
                true
            },
            None => false,
        }
    }

    /// The records that `player`'s first session of the epoch in progress
    /// works with, without storing anything.
    fn entry_for(&self, player: u64, balance: i128, now: u64) -> (r: Result<
        (Player, EpochPlayer),
        Error,
    >)
        requires
            self.wf(),
        ensures
            !self@.players.contains_key(player) ==> r == Err::<(Player, EpochPlayer), Error>(
                Error::FactionNotSelected,
            ),
            self@.players.contains_key(player) ==> {
                &&& r matches Ok(v) ==> v == self@.entry(player, balance, now)
                &&& r matches Err(e) ==> e == Error::OverflowError
                &&& r is Ok <== self@.entry_in_range(player, balance)
            },
            r matches Ok(v) ==> v.1.epoch_faction is Some,
            r matches Ok(v) ==> v.1.available_fp >= 0 || self@.is_evaluated(player),
    {
        let p = match self.players.get(&player) {
            Some(p) => *p,
            None => return Err(Error::FactionNotSelected),
        };
        let key = record_key(self.current_epoch, player);
        let stored: Option<EpochPlayer> = match self.epoch_players.get(&key) {
            Some(ep) => Some(*ep),
            None => None,
        };
        if let Some(ep) = stored {
            if self.evaluated.contains(&key) {
                if ep.epoch_faction.is_some() {
                    return Ok((p, ep));
                } else {
                    return Ok((p, EpochPlayer { epoch_faction: Some(p.selected_faction), ..ep }));
                }
            }
        }
        let locked: Option<u32> = match stored {
            Some(ep) => ep.epoch_faction,
            None => None,
        };
        match materialize_epoch_player(p, balance, now) {
            Ok((q, fresh)) => {
                let faction = if locked.is_some() {
                    locked
                } else {
                    fresh.epoch_faction
                };
                Ok((q, EpochPlayer { epoch_faction: faction, ..fresh }))
            },
            Err(e) => Err(e),
        }
    }

    /// Stores `player`'s records for the epoch in progress, with its points
    /// computed.
    fn store_entry(&mut self, player: u64, p: Player, ep: EpochPlayer)
        requires
            old(self).wf(),
        ensures
            final(self).wf(),
            final(self)@ == (BlendizzardView {
                players: old(self)@.players.insert(player, p),
                epoch_players: old(self)@.epoch_players.insert((old(self)@.current_epoch, player), ep),
                evaluated: old(self)@.evaluated.insert((old(self)@.current_epoch, player)),
                ..old(self)@
            }),
    {
        let key = record_key(self.current_epoch, player);
        proof {
            lemma_insert_epoch_record(self.epoch_players@, self.current_epoch, player, ep);
            lemma_insert_record_marker(self.evaluated@, self.current_epoch, player);
        }
        self.players.insert(player, p);
        self.epoch_players.insert(key, ep);
        self.evaluated.insert(key);
    }

    /// Locks the player's faction for the epoch in progress to its current
    /// selection and returns it. Once locked, the same faction is returned and
    /// nothing changes, whatever the player selected since. Locking alone
    /// computes no points: a new epoch record has them, its balance snapshot
    /// and its contribution at 0 until the player's first session.
    pub fn lock_epoch_faction(&mut self, player: u64) -> (r: Result<u32, Error>)
        requires
            old(self).wf(),
        ensures
            final(self).wf(),
            old(self)@.keeps_history(final(self)@),
            old(self)@.keeps_selections(final(self)@),
            old(self)@.keeps_locks(final(self)@),
            r is Err ==> final(self)@ == old(self)@,
            !old(self)@.players.contains_key(player) ==> r == Err::<u32, Error>(
                Error::FactionNotSelected,
            ),
            old(self)@.players.contains_key(player) ==> r == Ok::<u32, Error>(
                old(self)@.locked_faction(player),
            ) && final(self)@ == old(self)@.with_lock(player),
    {
        let selected = match self.players.get(&player) {
            Some(p) => p.selected_faction,
            None => return Err(Error::FactionNotSelected),
        };
        let key = record_key(self.current_epoch, player);
        let record = match self.epoch_players.get(&key) {
            Some(ep) => {
                if let Some(f) = ep.epoch_faction {
                    return Ok(f);
                }
                EpochPlayer { epoch_faction: Some(selected), ..*ep }
            },
            None => EpochPlayer {
                epoch_faction: Some(selected),
                epoch_balance_snapshot: 0,
                available_fp: 0,
                total_fp_contributed: 0,
            },
        };
        proof {
            lemma_insert_epoch_record(self.epoch_players@, self.current_epoch, player, record);
        }
        self.epoch_players.insert(key, record);
        assert(self@.epoch_players == old(self)@.epoch_players.insert(
            (old(self)@.current_epoch, player),
            record,
        ));
        assert(self@.epochs == old(self)@.epochs);
        Ok(selected)
    }

    /// The player's record for the epoch in progress. Before its first
    /// session of the epoch nothing is stored and nothing is written: the
    /// record shows the points of the vault `balance` held since the stored
    /// time-multiplier anchor (`now - anchor`, so a never-evaluated anchor of
    /// 0 counts from 0), with no withdrawal reset applied; the reset is
    /// checked only when a session computes the record. The faction shown is
    /// the locked one, if any.
    pub fn get_epoch_player(&self, player: u64, balance: i128, now: u64) -> (r: Result<
        EpochPlayer,
        Error,
    >)
        requires
            self.wf(),
        ensures
            self@.is_evaluated(player) ==> r == Ok::<EpochPlayer, Error>(
                self@.epoch_players[(self@.current_epoch, player)],
            ),
            !self@.is_evaluated(player) && !self@.players.contains_key(player) ==> r == Err::<
                EpochPlayer,
                Error,
            >(Error::FactionNotSelected),
            !self@.is_evaluated(player) && self@.players.contains_key(player) ==> {
                &&& r matches Ok(ep) ==> ep == self@.preview(player, balance, now)
                &&& r matches Err(e) ==> e == Error::OverflowError
                &&& r is Ok <== balance <= MAX_FP_BALANCE
            },
    {
        let key = record_key(self.current_epoch, player);
        let stored: Option<EpochPlayer> = match self.epoch_players.get(&key) {
            Some(ep) => Some(*ep),
            None => None,
        };
        if let Some(ep) = stored {
            if self.evaluated.contains(&key) {
                return Ok(ep);
            }
        }
        let anchor = match self.players.get(&player) {
            Some(p) => p.time_multiplier_start,
            None => return Err(Error::FactionNotSelected),
        };
        let locked: Option<u32> = match stored {
            Some(ep) => ep.epoch_faction,
            None => None,
        };
        let age: u64 = if now > anchor {
            now - anchor
        } else {
            0
        };
        match calculate_faction_points(balance, age) {
            Ok(fp) => Ok(
                EpochPlayer {
                    epoch_faction: locked,
                    epoch_balance_snapshot: balance,
                    available_fp: fp,
                    total_fp_contributed: 0,
                },
            ),
            Err(e) => Err(e),
        }
    }

    /// The record of the given epoch, or of the one in progress for `None`;
    /// `EpochNotFinalized` for an epoch that has no record.
    pub fn get_epoch(&self, epoch: Option<u32>) -> (r: Result<EpochInfo, Error>)
        ensures
            ({
                let e = match epoch {
                    Some(e) => e,
                    None => self@.current_epoch,
                };
                &&& r is Ok <==> self@.epochs.contains_key(e)
                &&& r matches Ok(info) ==> info == self@.epochs[e]
                &&& r matches Err(err) ==> err == Error::EpochNotFinalized
            }),
    {
        let e = match epoch {
            Some(e) => e,
            None => self.current_epoch,
        };
        match self.epochs.get(&e) {
            Some(info) => Ok(*info),
            None => Err(Error::EpochNotFinalized),
        }
    }

    /// Starts a wagered session between two players for an approved game.
    /// Each player's first session of the epoch locks its faction and
    /// computes its points from its vault balance at `now`; then each wager
    /// is taken out of the player's available points and held by the session
    /// until it settles.
    pub fn start_game(
        &mut self,
        game_id: u64,
        session_id: u32,
        player1: u64,
        player2: u64,
        player1_wager: i128,
        player2_wager: i128,
        player1_balance: i128,
        player2_balance: i128,
        now: u64,
    ) -> (r: Result<(), Error>)
        requires
            old(self).wf(),
        ensures
            final(self).wf(),
            old(self)@.keeps_history(final(self)@),
            old(self)@.keeps_selections(final(self)@),
            old(self)@.keeps_locks(final(self)@),
            r is Err ==> final(self)@ == old(self)@,
            ({
                let pre = old(self)@;
                let check = pre.start_game_check(
                    game_id,
                    session_id,
                    player1,
                    player2,
                    player1_wager,
                    player2_wager,
                );
                let in_range = pre.entry_in_range(player1, player1_balance)
                    && pre.entry_in_range(player2, player2_balance);
                let e1 = pre.entry(player1, player1_balance, now).1;
                let e2 = pre.entry(player2, player2_balance, now).1;
                let enough = e1.available_fp >= player1_wager && e2.available_fp >= player2_wager;
                &&& check matches Some(e) ==> r == Err::<(), Error>(e)
                &&& r == Err::<(), Error>(Error::OverflowError) ==> check is None && !in_range
                &&& check is None && in_range && !enough ==> r == Err::<(), Error>(
                    Error::InsufficientFactionPoints,
                )
                &&& r is Ok <== check is None && in_range && enough
                &&& r is Ok ==> check is None && enough
                &&& r is Ok ==> final(self)@.epoch_players[(pre.current_epoch, player1)].available_fp
                    >= 0 && final(self)@.epoch_players[(pre.current_epoch, player2)].available_fp
                    >= 0
                &&& r is Ok ==> final(self)@ == pre.started(
                    game_id,
                    session_id,
                    player1,
                    player2,
                    player1_wager,
                    player2_wager,
                    player1_balance,
                    player2_balance,
                    now,
                )
            }),
    {
        if self.paused {
            return Err(Error::ContractPaused);
        }
        if !self.games.contains(&game_id) {
            return Err(Error::GameNotWhitelisted);
        }
        if let Some(existing) = self.sessions.get(&session_id) {
            if matches!(existing.status, SessionStatus::Pending) {
                return Err(Error::SessionAlreadyExists);
            }
        }
        if player1_wager <= 0 || player2_wager <= 0 {
            return Err(Error::InvalidAmount);
        }
        if player1 == player2 {
            return Err(Error::PlayersNotDistinct);
        }
        if !self.players.contains_key(&player1) || !self.players.contains_key(&player2) {
            return Err(Error::FactionNotSelected);
        }
        let (q1, e1) = match self.entry_for(player1, player1_balance, now) {
            Ok(v) => v,
            Err(e) => return Err(e),
        };
        let (q2, e2) = match self.entry_for(player2, player2_balance, now) {
            Ok(v) => v,
            Err(e) => return Err(e),
        };
        if e1.available_fp < player1_wager || e2.available_fp < player2_wager {
            return Err(Error::InsufficientFactionPoints);
        }
        let cur = self.current_epoch;
        self.store_entry(
            player1,
            q1,
            EpochPlayer { available_fp: e1.available_fp - player1_wager, ..e1 },
        );
        self.store_entry(
            player2,
            q2,
            EpochPlayer { available_fp: e2.available_fp - player2_wager, ..e2 },
        );
        self.sessions.insert(
            session_id,
            GameSession {
                game_id,
                session_id,
                player1,
                player2,
                player1_wager,
                player2_wager,
                epoch: cur,
                status: SessionStatus::Pending,
            },
        );
        Ok(())
    }

    /// Settles a pending session with the outcome its game reports. The game
    /// contract's own authorization guards the call; `proof` is the game's
    /// evidence for the outcome, which the game verifies before reporting.
    /// The winner (`outcome.winner` is true when player 1 won) gets both
    /// wagers back; its contribution and its faction's standing grow by the
    /// loser's wager alone. Only a game still on the whitelist can settle.
    ///
    /// A session started in an epoch that has since been finalized cannot
    /// settle any more: the call fails with `InvalidSessionState`, as it does
    /// when the session's epoch records are missing. Such a session stays
    /// pending, so its id stays taken, and its wagers stay out of the
    /// players' points of that epoch.
    pub fn end_game(&mut self, game_id: u64, session_id: u32, proof: &[u8], outcome: GameOutcome) -> (r:
        Result<(), Error>)
        requires
            old(self).wf(),
        ensures
            final(self).wf(),
            old(self)@.keeps_history(final(self)@),
            old(self)@.keeps_selections(final(self)@),
            old(self)@.keeps_locks(final(self)@),
            r is Err ==> final(self)@ == old(self)@,
            !old(self)@.games.contains(game_id) ==> r == Err::<(), Error>(Error::GameNotWhitelisted),
            old(self)@.games.contains(game_id) ==> ({
                let pre = old(self)@;
                let s = pre.sessions[session_id];
                &&& !pre.session_pending(session_id) ==> r == Err::<(), Error>(
                    Error::SessionNotFound,
                )
                &&& pre.session_pending(session_id) && !BlendizzardView::outcome_matches(
                    s,
                    game_id,
                    session_id,
                    outcome,
                ) ==> r == Err::<(), Error>(Error::InvalidGameOutcome)
                &&& pre.session_pending(session_id) && BlendizzardView::outcome_matches(
                    s,
                    game_id,
                    session_id,
                    outcome,
                ) ==> {
                    &&& !pre.settle_records_present(session_id, outcome.winner) ==> r == Err::<
                        (),
                        Error,
                    >(Error::InvalidSessionState)
                    &&& pre.settle_records_present(session_id, outcome.winner) && !pre.settle_fits(
                        session_id,
                        outcome.winner,
                    ) ==> r == Err::<(), Error>(Error::OverflowError)
                    &&& pre.settle_records_present(session_id, outcome.winner) && pre.settle_fits(
                        session_id,
                        outcome.winner,
                    ) ==> r is Ok
                }
                &&& r is Ok ==> final(self)@ == pre.settled(session_id, outcome.winner)
            }),
    {
        if !self.games.contains(&game_id) {
            return Err(Error::GameNotWhitelisted);
        }
        let s = match self.sessions.get(&session_id) {
            Some(s) => *s,
            None => return Err(Error::SessionNotFound),
        };
        if !matches!(s.status, SessionStatus::Pending) {
            return Err(Error::SessionNotFound);
        }
        if s.game_id != game_id || outcome.game_id != game_id || outcome.session_id != session_id
            || outcome.player1 != s.player1 || outcome.player2 != s.player2 {
            return Err(Error::InvalidGameOutcome);
        }
        if s.epoch != self.current_epoch {
            return Err(Error::InvalidSessionState);
        }
        let key1 = record_key(s.epoch, s.player1);
        let key2 = record_key(s.epoch, s.player2);
        if !self.epoch_players.contains_key(&key1) || !self.epoch_players.contains_key(&key2) {
            return Err(Error::InvalidSessionState);
        }
        let (winner, loser_wager) = if outcome.winner {
            (s.player1, s.player2_wager)
        } else {
            (s.player2, s.player1_wager)
        };
        let wkey = record_key(s.epoch, winner);
        let wr = match self.epoch_players.get(&wkey) {
            Some(r) => *r,
            None => return Err(Error::InvalidSessionState),
        };
        let faction = match wr.epoch_faction {
            Some(f) => f,
            None => return Err(Error::InvalidSessionState),
        };
        if !Faction::is_valid(faction) {
            return Err(Error::InvalidSessionState);
        }
        let info = match self.epochs.get(&s.epoch) {
            Some(i) => *i,
            None => return Err(Error::InvalidSessionState),
        };
        let pot = match s.player1_wager.checked_add(s.player2_wager) {
            Some(v) => v,
            None => return Err(Error::OverflowError),
        };
        let available = match wr.available_fp.checked_add(pot) {
            Some(v) => v,
            None => return Err(Error::OverflowError),
        };
        let contributed = match wr.total_fp_contributed.checked_add(loser_wager) {
            Some(v) => v,
            None => return Err(Error::OverflowError),
        };
        let standing = match info.faction_standings.get(faction).checked_add(loser_wager) {
            Some(v) => v,
            None => return Err(Error::OverflowError),
        };
        let mut standings = info.faction_standings;
        standings.set(faction, standing);
        let new_record = EpochPlayer {
            available_fp: available,
            total_fp_contributed: contributed,
            ..wr
        };
        proof {
            lemma_insert_epoch_record(self.epoch_players@, s.epoch, winner, new_record);
        }
        self.epoch_players.insert(wkey, new_record);
        self.epochs.insert(s.epoch, EpochInfo { faction_standings: standings, ..info });
        self.sessions.insert(session_id, GameSession { status: SessionStatus::Settled, ..s });
        Ok(())
    }

    /// Checks that the epoch in progress can be finalized at `now`, before
    /// any yield is harvested, and returns the faction that would win it.
    pub fn check_cycle(&self, now: u64) -> (r: Result<u32, Error>)
        requires
            self.wf(),
        ensures
            self@.cycle_check(now) matches Some(e) ==> r == Err::<u32, Error>(e),
            self@.cycle_check(now) is None ==> r == Ok::<u32, Error>(
                self@.current().faction_standings.spec_leader(),
            ),
    {
        let info = match self.epochs.get(&self.current_epoch) {
            Some(i) => *i,
            None => return Err(Error::EpochNotFinalized),
        };
        if now < info.end_time {
            return Err(Error::EpochNotReady);
        }
        if info.is_finalized {
            return Err(Error::EpochAlreadyFinalized);
        }
        Ok(info.faction_standings.leader())
    }

    /// Finalizes the epoch in progress at `now` and opens the next one,
    /// whose number it returns. The faction with the largest standing wins
    /// (the lowest id among equals; faction 0 when nobody scored). The reward
    /// pool is what the harvest-and-swap added to the contract's payout-token
    /// balance: `balance_after - balance_before`, measured around the swap, so
    /// that a balance held before does not count.
    pub fn cycle_epoch(&mut self, now: u64, balance_before: i128, balance_after: i128) -> (r: Result<
        u32,
        Error,
    >)
        requires
            old(self).wf(),
        ensures
            final(self).wf(),
            old(self)@.keeps_history(final(self)@),
            old(self)@.keeps_selections(final(self)@),
            old(self)@.keeps_locks(final(self)@),
            r is Err ==> final(self)@ == old(self)@,
            old(self)@.cycle_check(now) matches Some(e) ==> r == Err::<u32, Error>(e),
            old(self)@.cycle_check(now) is None && !old(self)@.cycle_fits(
                now,
                balance_before,
                balance_after,
            ) ==> r == Err::<u32, Error>(Error::OverflowError),
            old(self)@.cycle_check(now) is None && old(self)@.cycle_fits(
                now,
                balance_before,
                balance_after,
            ) ==> r == Ok::<u32, Error>((old(self)@.current_epoch + 1) as u32),
            r is Ok ==> final(self)@ == old(self)@.cycled(now, balance_before, balance_after),
    {
        let cur = self.current_epoch;
        let info = match self.epochs.get(&cur) {
            Some(i) => *i,
            None => return Err(Error::EpochNotFinalized),
        };
        if now < info.end_time {
            return Err(Error::EpochNotReady);
        }
        if info.is_finalized {
            return Err(Error::EpochAlreadyFinalized);
        }
        let next = match cur.checked_add(1) {
            Some(n) => n,
            None => return Err(Error::OverflowError),
        };
        let end_time = match now.checked_add(self.config.epoch_duration) {
            Some(t) => t,
            None => return Err(Error::OverflowError),
        };
        let reward_pool: i128 = if balance_after > balance_before {
            match balance_after.checked_sub(balance_before) {
                Some(d) => d,
                None => return Err(Error::OverflowError),
            }
        } else {
            0
        };
        let winner = info.faction_standings.leader();
        self.epochs.insert(
            cur,
            EpochInfo {
                is_finalized: true,
                winning_faction: Some(winner),
                reward_pool,
                ..info
            },
        );
        self.epochs.insert(
            next,
            EpochInfo {
                epoch_number: next,
                start_time: now,
                end_time,
                faction_standings: Standings::zero(),
                reward_pool: 0,
                winning_faction: None,
                is_finalized: false,
            },
        );
        self.current_epoch = next;
        assert(self@.epoch_players == old(self)@.epoch_players);
        Ok(next)
    }

    /// Pays `player` its share of a finalized epoch's reward pool, once: the
    /// pool times its contribution over its faction's total, in fixed point
    /// and rounded down. Returns the amount, for the caller to transfer.
    pub fn claim_epoch_reward(&mut self, player: u64, epoch: u32) -> (r: Result<i128, Error>)
        requires
            old(self).wf(),
        ensures
            final(self).wf(),
            old(self)@.keeps_history(final(self)@),
            old(self)@.keeps_selections(final(self)@),
            old(self)@.keeps_locks(final(self)@),
            r is Err ==> final(self)@ == old(self)@,
            old(self)@.claim_check(player, epoch) matches Some(e) ==> r == Err::<i128, Error>(e),
            old(self)@.claim_check(player, epoch) is None && !old(self)@.claim_fits(player, epoch)
                ==> r == Err::<i128, Error>(Error::OverflowError),
            old(self)@.claim_check(player, epoch) is None && old(self)@.claim_fits(player, epoch)
                ==> r is Ok,
            r matches Ok(amount) ==> {
                &&& amount == old(self)@.claim_amount(player, epoch)
                &&& final(self)@ == (BlendizzardView {
                    claimed: old(self)@.claimed.insert((player, epoch)),
                    ..old(self)@
                })
            },
    {
        if self.paused {
            return Err(Error::ContractPaused);
        }
        let info = match self.epochs.get(&epoch) {
            Some(i) => *i,
            None => return Err(Error::EpochNotFinalized),
        };
        if !info.is_finalized {
            return Err(Error::EpochNotFinalized);
        }
        let key = record_key(epoch, player);
        if self.claimed.contains(&key) {
            return Err(Error::RewardAlreadyClaimed);
        }
        let record = match self.epoch_players.get(&key) {
            Some(ep) => *ep,
            None => return Err(Error::NotWinningFaction),
        };
        let winning = match info.winning_faction {
            Some(f) => f,
            None => return Err(Error::NotWinningFaction),
        };
        match record.epoch_faction {
            Some(f) => {
                if f != winning {
                    return Err(Error::NotWinningFaction);
                }
            },
            None => return Err(Error::NotWinningFaction),
        }
        let contributed = record.total_fp_contributed;
        let total = info.faction_standings.get(winning);
        if contributed <= 0 || total <= 0 {
            return Err(Error::NoRewardsAvailable);
        }
        let share = match fixed_div_floor(contributed, total, SCALAR_7) {
            Some(v) => v,
            None => return Err(Error::OverflowError),
        };
        let amount = match fixed_mul_floor(info.reward_pool, share, SCALAR_7) {
            Some(v) => v,
            None => return Err(Error::OverflowError),
        };
        proof {
            lemma_insert_claim(self.claimed@, player, epoch);
        }
        self.claimed.insert(key);
        Ok(amount)
    }

    /// Rebuilds the state around the epoch in progress, for a host that keeps
    /// each record apart and loads those an operation needs. `None` when
    /// `info` cannot be the epoch in progress: it is finalized.
    pub fn restore(
        admin: u64,
        config: Config,
        reserve_token_ids: Vec<u32>,
        paused: bool,
        info: EpochInfo,
    ) -> (r: Option<Blendizzard>)
        ensures
            r is Some <==> !info.is_finalized,
            r matches Some(b) ==> b.wf() && b@ == (BlendizzardView {
                admin,
                config,
                reserve_token_ids: reserve_token_ids@,
                paused,
                current_epoch: info.epoch_number,
                players: Map::empty(),
                epoch_players: Map::empty(),
                epochs: map![info.epoch_number => info],
                sessions: Map::empty(),
                games: Set::empty(),
                claimed: Set::empty(),
                evaluated: Set::empty(),
            }),
    {
        if info.is_finalized {
            return None;
        }
        let mut epochs: HashMap<u32, EpochInfo> = HashMap::new();
        epochs.insert(info.epoch_number, info);
        let b = Blendizzard {
            admin,
            config,
            reserve_token_ids,
            paused,
            current_epoch: info.epoch_number,
            players: HashMap::new(),
            epoch_players: HashMap::new(),
            epochs,
            sessions: HashMap::new(),
            games: HashSet::new(),
            claimed: HashSet::new(),
            evaluated: HashSet::new(),
        };
        proof {
            assert(b@.epochs =~= map![info.epoch_number => info]);
            assert(b@.epoch_players =~= Map::empty());
            assert(b@.claimed =~= Set::empty());
            assert(b@.evaluated =~= Set::empty());
        }
        Some(b)
    }

    /// Loads a stored player record.
    pub fn load_player(&mut self, player: u64, record: Player)
        requires
            old(self).wf(),
        ensures
            final(self).wf(),
            final(self)@ == (BlendizzardView {
                players: old(self)@.players.insert(player, record),
                ..old(self)@
            }),
    {
        self.players.insert(player, record);
        assert(self@.epoch_players == old(self)@.epoch_players);
    }

    /// Loads a stored epoch record of `player`, whose points a first session
    /// computed (the host stores epoch records only after one); refused (and `false`) for an
    /// epoch after the one in progress.
    pub fn load_epoch_player(&mut self, epoch: u32, player: u64, record: EpochPlayer) -> (r: bool)
        requires
            old(self).wf(),
        ensures
            final(self).wf(),
            r == (epoch <= old(self)@.current_epoch),
            r ==> final(self)@ == (BlendizzardView {
                epoch_players: old(self)@.epoch_players.insert((epoch, player), record),
                evaluated: old(self)@.evaluated.insert((epoch, player)),
                ..old(self)@
            }),
            !r ==> final(self)@ == old(self)@,
    {
        if epoch > self.current_epoch {
            return false;
        }
        let key = record_key(epoch, player);
        proof {
            lemma_insert_epoch_record(self.epoch_players@, epoch, player, record);
            lemma_insert_record_marker(self.evaluated@, epoch, player);
        }
        self.epoch_players.insert(key, record);
        self.evaluated.insert(key);
        true
    }

    /// Loads the stored record of an earlier epoch; refused (and `false`) for
    /// the epoch in progress or a later one.
    pub fn load_epoch(&mut self, info: EpochInfo) -> (r: bool)
        requires
            old(self).wf(),
        ensures
            final(self).wf(),
            r == (info.epoch_number < old(self)@.current_epoch),
            r ==> final(self)@ == (BlendizzardView {
                epochs: old(self)@.epochs.insert(info.epoch_number, info),
                ..old(self)@
            }),
            !r ==> final(self)@ == old(self)@,
    {
        if info.epoch_number >= self.current_epoch {
            return false;
        }
        self.epochs.insert(info.epoch_number, info);
        assert(self@.epoch_players == old(self)@.epoch_players);
        true
    }

    /// Loads a stored session record.
    pub fn load_session(&mut self, session: GameSession)
        requires
            old(self).wf(),
        ensures
            final(self).wf(),
            final(self)@ == (BlendizzardView {
                sessions: old(self)@.sessions.insert(session.session_id, session),
                ..old(self)@
            }),
    {
        self.sessions.insert(session.session_id, session);
        assert(self@.epoch_players == old(self)@.epoch_players);
    }

    /// Loads a stored claim marker.
    pub fn load_claim(&mut self, player: u64, epoch: u32)
        requires
            old(self).wf(),
        ensures
            final(self).wf(),
            final(self)@ == (BlendizzardView {
                claimed: old(self)@.claimed.insert((player, epoch)),
                ..old(self)@
            }),
    {
        proof {
            lemma_insert_claim(self.claimed@, player, epoch);
        }
        self.claimed.insert(record_key(epoch, player));
        assert(self@.epoch_players == old(self)@.epoch_players);
    }

    /// The stored epoch record of `player`, if any.
    pub fn epoch_record(&self, epoch: u32, player: u64) -> (r: Option<EpochPlayer>)
        ensures
            r is Some <==> self@.epoch_players.contains_key((epoch, player)),
            r matches Some(ep) ==> ep == self@.epoch_players[(epoch, player)],
    {
        match self.epoch_players.get(&record_key(epoch, player)) {
            Some(ep) => Some(*ep),
            None => None,
        }
    }

    pub fn get_session(&self, session_id: u32) -> (r: Option<GameSession>)
        ensures
            r is Some <==> self@.sessions.contains_key(session_id),
            r matches Some(s) ==> s == self@.sessions[session_id],
    {
        match self.sessions.get(&session_id) {
            Some(s) => Some(*s),
            None => None,
        }
    }

    pub fn has_claimed(&self, player: u64, epoch: u32) -> (r: bool)
        ensures
            r == self@.claimed.contains((player, epoch)),
    {
        self.claimed.contains(&record_key(epoch, player))
    }

    pub fn current_epoch(&self) -> (r: u32)
        ensures
            r == self@.current_epoch,
    {
        self.current_epoch
    }
}

} // verus!
