//! A two-player guessing game played through the protocol: each player
//! guesses a number from 1 to 10, and the guess closest to the drawn number
//! wins (player 1 on a tie). The host draws the number and relays the session
//! start and the outcome to the protocol.
use std::collections::HashMap;
use vstd::prelude::*;

verus! {

broadcast use vstd::std_specs::hash::group_hash_axioms;

/// Ways a move in the guessing game can fail.
#[derive(Clone, Copy, Debug, PartialEq, Eq, Structural)]
pub enum Error {
    GameNotFound,
    GameAlreadyStarted,
    NotPlayer,
    AlreadyGuessed,
    BothPlayersNotGuessed,
    GameAlreadyEnded,
    NotInitialized,
    AlreadyInitialized,
    NotAdmin,
}

#[derive(Clone, Copy, Debug, PartialEq, Eq, Structural)]
pub enum GameStatus {
    Active,
    Ended,
}

/// One game: its protocol session, the players and wagers, the guesses so
/// far, the drawn number and, once ended, the winner.
#[derive(Clone, Copy, Debug, PartialEq, Eq, Structural)]
pub struct Game {
    pub session_id: u32,
    pub player1: u64,
    pub player2: u64,
    pub player1_wager: i128,
    pub player2_wager: i128,
    pub guess1: Option<u32>,
    pub guess2: Option<u32>,
    pub winning_number: u32,
    pub status: GameStatus,
    pub winner: Option<u64>,
}

/// How far a guess lies from the drawn number.
pub open spec fn spec_distance(guess: u32, number: u32) -> int {
    if guess > number {
        guess - number
    } else {
        number - guess
    }
}

/// The winner of a game in which both players guessed: the closer guess,
/// player 1 on a tie.
pub open spec fn spec_winner(g: Game) -> u64 {
    if spec_distance(g.guess1->Some_0, g.winning_number) <= spec_distance(
        g.guess2->Some_0,
        g.winning_number,
    ) {
        g.player1
    } else {
        g.player2
    }
}

fn distance(guess: u32, number: u32) -> (r: u32)
    ensures
        r == spec_distance(guess, number),
{
    if guess > number {
        guess - number
    } else {
        number - guess
    }
}

pub ghost struct NumberGuessView {
    pub admin: u64,
    pub blendizzard: u64,
    pub game_counter: u32,
    pub games: Map<u32, Game>,
}

/// The guessing game's state.
pub struct NumberGuessContract {
    admin: u64,
    blendizzard: u64,
    game_counter: u32,
    games: HashMap<u32, Game>,
}

impl View for NumberGuessContract {
    type V = NumberGuessView;

    closed spec fn view(&self) -> NumberGuessView {
        NumberGuessView {
            admin: self.admin,
            blendizzard: self.blendizzard,
            game_counter: self.game_counter,
            games: self.games@,
        }
    }
}

impl NumberGuessContract {
    /// Well-formed: an ended game has its winner.
    pub open spec fn wf(&self) -> bool {
        forall|id: u32|
            #[trigger] self@.games.contains_key(id) && self@.games[id].status == GameStatus::Ended
                ==> self@.games[id].winner is Some
    }

    /// A game contract with no games, playing through the protocol instance
    /// `blendizzard`.
    pub fn new(admin: u64, blendizzard: u64) -> (r: NumberGuessContract)
        ensures
            r.wf(),
            r@ == (NumberGuessView { admin, blendizzard, game_counter: 0, games: Map::empty() }),
    {
        NumberGuessContract { admin, blendizzard, game_counter: 0, games: HashMap::new() }
    }

    /// The state of a host that keeps each game apart: no game loaded yet,
    /// and the id of the last game started.
    pub fn restore(admin: u64, blendizzard: u64, game_counter: u32) -> (r: NumberGuessContract)
        ensures
            r.wf(),
            r@ == (NumberGuessView { admin, blendizzard, game_counter, games: Map::empty() }),
    {
        NumberGuessContract { admin, blendizzard, game_counter, games: HashMap::new() }
    }

    /// Loads a stored game; refused (and `false`) for an ended game without a
    /// winner.
    pub fn load_game(&mut self, game_id: u32, game: Game) -> (r: bool)
        requires
            old(self).wf(),
        ensures
            final(self).wf(),
            r == (game.status == GameStatus::Active || game.winner is Some),
            r ==> final(self)@ == (NumberGuessView {
                games: old(self)@.games.insert(game_id, game),
                ..old(self)@
            }),
            !r ==> final(self)@ == old(self)@,
    {
        if matches!(game.status, GameStatus::Ended) && game.winner.is_none() {
            return false;
        }
        self.games.insert(game_id, game);
        true
    }

    pub fn admin(&self) -> (r: u64)
        ensures
            r == self@.admin,
    {
        self.admin
    }

    pub fn blendizzard(&self) -> (r: u64)
        ensures
            r == self@.blendizzard,
    {
        self.blendizzard
    }

    /// The id the last started game got; 0 before any.
    pub fn game_counter(&self) -> (r: u32)
        ensures
            r == self@.game_counter,
    {
        self.game_counter
    }

    fn get_next_game_id(&mut self) -> (r: u32)
        requires
            old(self)@.game_counter < u32::MAX,
        ensures
            r == old(self)@.game_counter + 1,
            final(self)@ == (NumberGuessView { game_counter: r, ..old(self)@ }),
    {
        self.game_counter = self.game_counter + 1;
        self.game_counter
    }

    /// Records a new game with the drawn `winning_number` once its session
    /// has started in the protocol, and returns the game's id: one past the
    /// previous game's.
    pub fn start_game(
        &mut self,
        session_id: u32,
        player1: u64,
        player2: u64,
        player1_wager: i128,
        player2_wager: i128,
        winning_number: u32,
    ) -> (r: u32)
        requires
            old(self).wf(),
            old(self)@.game_counter < u32::MAX,
            1 <= winning_number <= 10,
        ensures
            final(self).wf(),
            r == old(self)@.game_counter + 1,
            final(self)@ == (NumberGuessView {
                game_counter: r,
                games: old(self)@.games.insert(
                    r,
                    Game {
                        session_id,
                        player1,
                        player2,
                        player1_wager,
                        player2_wager,
                        guess1: None,
                        guess2: None,
                        winning_number,
                        status: GameStatus::Active,
                        winner: None,
                    },
                ),
                ..old(self)@
            }),
    {
        let game_id = self.get_next_game_id();
        self.games.insert(
            game_id,
            Game {
                session_id,
                player1,
                player2,
                player1_wager,
                player2_wager,
                guess1: None,
                guess2: None,
                winning_number,
                status: GameStatus::Active,
                winner: None,
            },
        );
        game_id
    }

    /// Records `player`'s guess, once per player and only while the game is
    /// active.
    pub fn make_guess(&mut self, game_id: u32, player: u64, guess: u32) -> (r: Result<(), Error>)
        requires
            old(self).wf(),
            1 <= guess <= 10,
        ensures
            final(self).wf(),
            r is Err ==> final(self)@ == old(self)@,
            ({
                let g = old(self)@.games[game_id];
                &&& !old(self)@.games.contains_key(game_id) ==> r == Err::<(), Error>(
                    Error::GameNotFound,
                )
                &&& old(self)@.games.contains_key(game_id) && g.status == GameStatus::Ended ==> r
                    == Err::<(), Error>(Error::GameAlreadyEnded)
                &&& old(self)@.games.contains_key(game_id) && g.status == GameStatus::Active ==> {
                    if player == g.player1 {
                        if g.guess1 is Some {
                            r == Err::<(), Error>(Error::AlreadyGuessed)
                        } else {
                            r is Ok && final(self)@ == (NumberGuessView {
                                games: old(self)@.games.insert(
                                    game_id,
                                    Game { guess1: Some(guess), ..g },
                                ),
                                ..old(self)@
                            })
                        }
                    } else if player == g.player2 {
                        if g.guess2 is Some {
                            r == Err::<(), Error>(Error::AlreadyGuessed)
                        } else {
                            r is Ok && final(self)@ == (NumberGuessView {
                                games: old(self)@.games.insert(
                                    game_id,
                                    Game { guess2: Some(guess), ..g },
                                ),
                                ..old(self)@
                            })
                        }
                    } else {
                        r == Err::<(), Error>(Error::NotPlayer)
                    }
                }
            }),
    {
        let mut game = match self.games.get(&game_id) {
            Some(g) => *g,
            None => return Err(Error::GameNotFound),
        };
        if matches!(game.status, GameStatus::Ended) {
            return Err(Error::GameAlreadyEnded);
        }
        if player == game.player1 {
            if game.guess1.is_some() {
                return Err(Error::AlreadyGuessed);
            }
            game.guess1 = Some(guess);
        } else if player == game.player2 {
            if game.guess2.is_some() {
                return Err(Error::AlreadyGuessed);
            }
            game.guess2 = Some(guess);
        } else {
            return Err(Error::NotPlayer);
        }
        self.games.insert(game_id, game);
        Ok(())
    }

    /// Ends the game once both players guessed and returns the winner: the
    /// closer guess, player 1 on a tie. For a game already ended it returns
    /// the recorded winner again.
    pub fn reveal_winner(&mut self, game_id: u32) -> (r: Result<u64, Error>)
        requires
            old(self).wf(),
        ensures
            final(self).wf(),
            r is Err ==> final(self)@ == old(self)@,
            ({
                let g = old(self)@.games[game_id];
                &&& !old(self)@.games.contains_key(game_id) ==> r == Err::<u64, Error>(
                    Error::GameNotFound,
                )
                &&& old(self)@.games.contains_key(game_id) && g.status == GameStatus::Ended ==> r
                    == Ok::<u64, Error>(g.winner->Some_0) && final(self)@ == old(self)@
                &&& old(self)@.games.contains_key(game_id) && g.status == GameStatus::Active ==> {
                    if g.guess1 is None || g.guess2 is None {
                        r == Err::<u64, Error>(Error::BothPlayersNotGuessed)
                    } else {
                        r == Ok::<u64, Error>(spec_winner(g)) && final(self)@ == (NumberGuessView {
                            games: old(self)@.games.insert(
                                game_id,
                                Game {
                                    status: GameStatus::Ended,
                                    winner: Some(spec_winner(g)),
                                    ..g
                                },
                            ),
                            ..old(self)@
                        })
                    }
                }
            }),
    {
        let mut game = match self.games.get(&game_id) {
            Some(g) => *g,
            None => return Err(Error::GameNotFound),
        };
        if matches!(game.status, GameStatus::Ended) {
            return match game.winner {
                Some(w) => Ok(w),
                None => Err(Error::GameAlreadyEnded),
            };
        }
        let guess1 = match game.guess1 {
            Some(g) => g,
            None => return Err(Error::BothPlayersNotGuessed),
        };
        let guess2 = match game.guess2 {
            Some(g) => g,
            None => return Err(Error::BothPlayersNotGuessed),
        };
        let distance1 = distance(guess1, game.winning_number);
        let distance2 = distance(guess2, game.winning_number);
        let winner = if distance1 <= distance2 {
            game.player1
        } else {
            game.player2
        };
        game.status = GameStatus::Ended;
        game.winner = Some(winner);
        self.games.insert(game_id, game);
        Ok(winner)
    }

    /// The game's record, with the drawn number.
    pub fn get_game(&self, game_id: u32) -> (r: Result<Game, Error>)
        ensures
            r is Ok <==> self@.games.contains_key(game_id),
            r matches Ok(g) ==> g == self@.games[game_id],
            r matches Err(e) ==> e == Error::GameNotFound,
    {
        match self.games.get(&game_id) {
            Some(g) => Ok(*g),
            None => Err(Error::GameNotFound),
        }
    }
}

} // verus!
