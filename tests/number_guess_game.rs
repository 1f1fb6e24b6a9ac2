use blendizzard::number_guess::{Error, GameStatus, NumberGuessContract};

const FIRST: u64 = 11;
const SECOND: u64 = 22;

fn started(winning_number: u32) -> (NumberGuessContract, u32) {
    let mut c = NumberGuessContract::new(1, 2);
    let id = c.start_game(77, FIRST, SECOND, 100, 100, winning_number);
    (c, id)
}

#[test]
fn start_assigns_increasing_ids() {
    let mut c = NumberGuessContract::new(1, 2);
    assert_eq!(c.start_game(1, FIRST, SECOND, 10, 10, 5), 1);
    assert_eq!(c.start_game(2, FIRST, SECOND, 10, 10, 5), 2);
    assert_eq!(c.game_counter(), 2);
    let g = c.get_game(2).unwrap();
    assert_eq!(g.session_id, 2);
    assert_eq!(g.status, GameStatus::Active);
    assert_eq!(g.guess1, None);
    assert_eq!(c.admin(), 1);
    assert_eq!(c.blendizzard(), 2);
}

#[test]
fn closer_guess_wins() {
    let (mut c, id) = started(7);
    c.make_guess(id, FIRST, 2).unwrap();
    c.make_guess(id, SECOND, 9).unwrap();
    assert_eq!(c.reveal_winner(id), Ok(SECOND));
    let g = c.get_game(id).unwrap();
    assert_eq!(g.status, GameStatus::Ended);
    assert_eq!(g.winner, Some(SECOND));
    // Revealing again returns the same winner.
    assert_eq!(c.reveal_winner(id), Ok(SECOND));
}

#[test]
fn tie_goes_to_player1() {
    let (mut c, id) = started(5);
    c.make_guess(id, FIRST, 3).unwrap();
    c.make_guess(id, SECOND, 7).unwrap();
    assert_eq!(c.reveal_winner(id), Ok(FIRST));
}

#[test]
fn guess_rejections() {
    let (mut c, id) = started(5);
    assert_eq!(c.make_guess(id + 1, FIRST, 3), Err(Error::GameNotFound));
    assert_eq!(c.make_guess(id, 99, 3), Err(Error::NotPlayer));
    c.make_guess(id, FIRST, 3).unwrap();
    assert_eq!(c.make_guess(id, FIRST, 4), Err(Error::AlreadyGuessed));
    assert_eq!(c.reveal_winner(id), Err(Error::BothPlayersNotGuessed));
    c.make_guess(id, SECOND, 4).unwrap();
    assert_eq!(c.reveal_winner(id), Ok(SECOND));
    assert_eq!(c.make_guess(id, SECOND, 4), Err(Error::GameAlreadyEnded));
    assert_eq!(c.reveal_winner(id + 5), Err(Error::GameNotFound));
    assert_eq!(c.get_game(id + 5), Err(Error::GameNotFound));
}
