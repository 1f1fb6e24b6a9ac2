use vstd::prelude::*;

verus! {

/// Faction ids: 0 WholeNoodle, 1 PointyStick, 2 SpecialRock.
pub const WHOLE_NOODLE: u32 = 0;

pub const POINTY_STICK: u32 = 1;

pub const SPECIAL_ROCK: u32 = 2;

pub open spec fn is_valid_faction(f: u32) -> bool {
    f <= 2
}

/// The three competing factions.
#[derive(Clone, Copy, Debug, PartialEq, Eq, Structural)]
pub enum Faction {
    WholeNoodle,
    PointyStick,
    SpecialRock,
}

impl Faction {
    /// Whether `faction` names one of the three factions.
    pub fn is_valid(faction: u32) -> (r: bool)
        ensures
            r == is_valid_faction(faction),
    {
        faction <= SPECIAL_ROCK
    }
}

/// Cross-epoch record of a player.
#[derive(Clone, Copy, Debug, PartialEq, Eq, Structural)]
pub struct Player {
    /// Persistent faction preference, used the next time an epoch locks it.
    pub selected_faction: u32,
    /// Timestamp from which the time multiplier grows; 0 until first evaluated.
    pub time_multiplier_start: u64,
    /// Vault balance seen the last time the player's position was evaluated.
    pub last_epoch_balance: i128,
}

/// A player's record within one epoch.
#[derive(Clone, Copy, Debug, PartialEq, Eq, Structural)]
pub struct EpochPlayer {
    /// Faction locked for the epoch on the player's first session; never changes after.
    pub epoch_faction: Option<u32>,
    /// Vault balance when the record was materialized.
    pub epoch_balance_snapshot: i128,
    /// Spendable faction points.
    pub available_fp: i128,
    /// Faction points this player added to the faction's standing this epoch.
    pub total_fp_contributed: i128,
}

/// Points accumulated by each faction within one epoch.
#[derive(Clone, Copy, Debug, PartialEq, Eq, Structural)]
pub struct Standings {
    pub whole_noodle: i128,
    pub pointy_stick: i128,
    pub special_rock: i128,
}

impl Standings {
    pub open spec fn spec_get(self, faction: u32) -> i128 {
        if faction == 0 {
            self.whole_noodle
        } else if faction == 1 {
            self.pointy_stick
        } else if faction == 2 {
            self.special_rock
        } else {
            0
        }
    }

    /// All three standings at zero.
    pub fn zero() -> (r: Standings)
        ensures
            r == (Standings { whole_noodle: 0, pointy_stick: 0, special_rock: 0 }),
            forall|f: u32| #[trigger] r.spec_get(f) == 0,
    {
        Standings { whole_noodle: 0, pointy_stick: 0, special_rock: 0 }
    }

    /// The standing of `faction`; 0 for an id that names no faction.
    pub fn get(&self, faction: u32) -> (r: i128)
        ensures
            r == self.spec_get(faction),
    {
        if faction == WHOLE_NOODLE {
            self.whole_noodle
        } else if faction == POINTY_STICK {
            self.pointy_stick
        } else if faction == SPECIAL_ROCK {
            self.special_rock
        } else {
            0
        }
    }

    /// The same standings with `faction`'s set to `value`.
    pub open spec fn spec_with(self, faction: u32, value: i128) -> Standings {
        if faction == 0 {
            Standings { whole_noodle: value, ..self }
        } else if faction == 1 {
            Standings { pointy_stick: value, ..self }
        } else if faction == 2 {
            Standings { special_rock: value, ..self }
        } else {
            self
        }
    }

    pub fn set(&mut self, faction: u32, value: i128)
        ensures
            *final(self) == old(self).spec_with(faction, value),
    {
        if faction == WHOLE_NOODLE {
            self.whole_noodle = value;
        } else if faction == POINTY_STICK {
            self.pointy_stick = value;
        } else if faction == SPECIAL_ROCK {
            self.special_rock = value;
        }
    }

    /// The winning faction: the one with the largest standing, the lowest id
    /// among equals, and faction 0 when nobody scored.
    pub open spec fn spec_leader(self) -> u32 {
        if self.whole_noodle >= self.pointy_stick && self.whole_noodle >= self.special_rock {
            0
        } else if self.pointy_stick >= self.special_rock {
            1
        } else {
            2
        }
    }

    pub fn leader(&self) -> (r: u32)
        ensures
            r == self.spec_leader(),
            is_valid_faction(r),
            forall|f: u32| is_valid_faction(f) ==> self.spec_get(f) <= #[trigger] self.spec_get(r),
            forall|f: u32| f < r ==> #[trigger] self.spec_get(f) < self.spec_get(r),
    {
        let mut best: u32 = WHOLE_NOODLE;
        let mut best_value: i128 = self.whole_noodle;
        if self.pointy_stick > best_value {
            best = POINTY_STICK;
            best_value = self.pointy_stick;
        }
        if self.special_rock > best_value {
            best = SPECIAL_ROCK;
        }
        best
    }
}

/// Metadata of one epoch.
#[derive(Clone, Copy, Debug, PartialEq, Eq, Structural)]
pub struct EpochInfo {
    pub epoch_number: u32,
    pub start_time: u64,
    pub end_time: u64,
    pub faction_standings: Standings,
    /// Payout-token amount set once, when the epoch is finalized.
    pub reward_pool: i128,
    /// Recorded when the epoch is finalized.
    pub winning_faction: Option<u32>,
    pub is_finalized: bool,
}

#[derive(Clone, Copy, Debug, PartialEq, Eq, Structural)]
pub enum SessionStatus {
    Pending,
    Settled,
}

/// A wagered two-player session started by a whitelisted game.
#[derive(Clone, Copy, Debug, PartialEq, Eq, Structural)]
pub struct GameSession {
    pub game_id: u64,
    pub session_id: u32,
    pub player1: u64,
    pub player2: u64,
    pub player1_wager: i128,
    pub player2_wager: i128,
    /// The epoch whose points were escrowed when the session started.
    pub epoch: u32,
    pub status: SessionStatus,
}

/// The result of a session as reported by its game.
#[derive(Clone, Copy, Debug, PartialEq, Eq, Structural)]
pub struct GameOutcome {
    pub game_id: u64,
    pub session_id: u32,
    pub player1: u64,
    pub player2: u64,
    /// `true` when `player1` won.
    pub winner: bool,
}

/// Global configuration. Outside accounts are named by the host's ids.
#[derive(Clone, Copy, Debug, PartialEq, Eq, Structural)]
pub struct Config {
    pub fee_vault: u64,
    pub soroswap_router: u64,
    pub blnd_token: u64,
    pub usdc_token: u64,
    pub epoch_duration: u64,
}

/// Player record in its oldest stored shape.
#[derive(Clone, Copy, Debug, PartialEq, Eq, Structural)]
pub struct PlayerV0 {
    pub selected_faction: u32,
    pub total_deposited: i128,
    pub deposit_timestamp: u64,
}

/// Player record in its second stored shape.
#[derive(Clone, Copy, Debug, PartialEq, Eq, Structural)]
pub struct PlayerV1 {
    pub selected_faction: u32,
    pub deposit_timestamp: u64,
    pub last_epoch_balance: i128,
}

/// Epoch record in its older shape, which still held escrowed points apart.
#[derive(Clone, Copy, Debug, PartialEq, Eq, Structural)]
pub struct EpochPlayerV0 {
    pub epoch_faction: Option<u32>,
    pub epoch_balance_snapshot: i128,
    pub available_fp: i128,
    pub locked_fp: i128,
    pub total_fp_contributed: i128,
}

/// A stored player record in any of its historical shapes.
#[derive(Clone, Copy, Debug, PartialEq, Eq, Structural)]
pub enum PlayerRecord {
    V0(PlayerV0),
    V1(PlayerV1),
    Current(Player),
}

impl PlayerRecord {
    pub open spec fn spec_into_current(self) -> Player {
        match self {
            PlayerRecord::V0(old) => Player {
                selected_faction: old.selected_faction,
                time_multiplier_start: old.deposit_timestamp,
                last_epoch_balance: 0,
            },
            PlayerRecord::V1(old) => Player {
                selected_faction: old.selected_faction,
                time_multiplier_start: old.deposit_timestamp,
                last_epoch_balance: old.last_epoch_balance,
            },
            PlayerRecord::Current(p) => p,
        }
    }

    /// The record in the current shape: the deposit timestamp becomes the time
    /// multiplier start; the oldest shape had no balance reference, so it is 0.
    pub fn into_current(self) -> (r: Player)
        ensures
            r == self.spec_into_current(),
    {
        match self {
            PlayerRecord::V0(old) => Player {
                selected_faction: old.selected_faction,
                time_multiplier_start: old.deposit_timestamp,
                last_epoch_balance: 0,
            },
            PlayerRecord::V1(old) => Player {
                selected_faction: old.selected_faction,
                time_multiplier_start: old.deposit_timestamp,
                last_epoch_balance: old.last_epoch_balance,
            },
            PlayerRecord::Current(p) => p,
        }
    }
}

/// A stored epoch record in any of its historical shapes.
#[derive(Clone, Copy, Debug, PartialEq, Eq, Structural)]
pub enum EpochPlayerRecord {
    V0(EpochPlayerV0),
    Current(EpochPlayer),
}

impl EpochPlayerRecord {
    pub open spec fn spec_into_current(self) -> EpochPlayer {
        match self {
            EpochPlayerRecord::V0(old) => EpochPlayer {
                epoch_faction: old.epoch_faction,
                epoch_balance_snapshot: old.epoch_balance_snapshot,
                available_fp: old.available_fp,
                total_fp_contributed: old.total_fp_contributed,
            },
            EpochPlayerRecord::Current(p) => p,
        }
    }

    /// The record in the current shape; the separate escrow field is dropped.
    pub fn into_current(self) -> (r: EpochPlayer)
        ensures
            r == self.spec_into_current(),
    {
        match self {
            EpochPlayerRecord::V0(old) => EpochPlayer {
                epoch_faction: old.epoch_faction,
                epoch_balance_snapshot: old.epoch_balance_snapshot,
                available_fp: old.available_fp,
                total_fp_contributed: old.total_fp_contributed,
            },
            EpochPlayerRecord::Current(p) => p,
        }
    }
}

} // verus!
