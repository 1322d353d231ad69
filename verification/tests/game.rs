use rps_game::field::Field;
use rps_game::move_conditions::{Direction, Move, OnlyForwardMove};
use rps_game::unit::GeneralUnit;
use rps_game::win_conditions::EliminateCondition;
use rps_game::{Game, Geometry, MoveError, Outcome, Player, Rules, HEIGHT, ROWS, RPS, WIDTH};

type ForwardGame = Game<OnlyForwardMove, EliminateCondition>;

fn small() -> Geometry {
    Geometry { width: 3, height: 3, initial_rows: 1 }
}

fn game_on(geometry: Geometry, red: &[RPS], blue: &[RPS]) -> ForwardGame {
    let rules = Rules::new(OnlyForwardMove, EliminateCondition);
    Game::with_lineup(rules, geometry, red, blue).unwrap()
}

fn forward(x: usize, y: usize) -> Move {
    Move::new(x, y, Direction::Forward)
}

fn cells(field: &Field<GeneralUnit>) -> Vec<Option<GeneralUnit>> {
    let mut all = Vec::new();
    for y in 0..field.height() {
        for x in 0..field.width() {
            all.push(field.get(x, y));
        }
    }
    all
}

fn piece(owner: Player, kind: RPS, visible: bool) -> Option<GeneralUnit> {
    Some(GeneralUnit { owner, kind, visible })
}

#[test]
fn basic_test() {
    let rules = Rules::new(OnlyForwardMove, EliminateCondition);
    let mut game = Game::with_geometry(rules, small()).unwrap();
    let move1 = Move::new(0, 0, Direction::Forward);

    assert_eq!(game.make_move(move1), Ok(None));

    assert_eq!(game.make_move(move1), Err(MoveError::NoUnitInPosition));

    let move2 = Move::new(0, 2, Direction::Forward);
    assert!(game.make_move(move2).unwrap().is_some());
}

#[test]
fn new_game_fills_the_standard_board() {
    let rules = Rules::new(OnlyForwardMove, EliminateCondition);
    let game: ForwardGame = Game::new(rules);
    assert_eq!(game.turns(), 1);
    assert_eq!(game.current_turn(), Player::Red);
    assert_eq!(game.winner(), None);
    let field = game.field();
    assert_eq!(field.width(), WIDTH);
    assert_eq!(field.height(), HEIGHT);
    for y in 0..HEIGHT {
        let first = field.get(0, y);
        for x in 0..WIDTH {
            let cell = field.get(x, y);
            assert_eq!(cell, first);
            if y < ROWS {
                let unit = cell.unwrap();
                assert_eq!(unit.owner, Player::Red);
                assert!(!unit.visible);
            } else if y >= HEIGHT - ROWS {
                let unit = cell.unwrap();
                assert_eq!(unit.owner, Player::Blue);
                assert!(!unit.visible);
            } else {
                assert_eq!(cell, None);
            }
        }
    }
}

#[test]
fn lineup_places_each_kind_in_its_row() {
    let geometry = Geometry { width: 2, height: 5, initial_rows: 2 };
    let game = game_on(geometry, &[RPS::Rock, RPS::Paper], &[RPS::Scissors, RPS::Rock]);
    let field = game.field();
    for x in 0..2 {
        assert_eq!(field.get(x, 0), piece(Player::Red, RPS::Rock, false));
        assert_eq!(field.get(x, 1), piece(Player::Red, RPS::Paper, false));
        assert_eq!(field.get(x, 2), None);
        assert_eq!(field.get(x, 3), piece(Player::Blue, RPS::Rock, false));
        assert_eq!(field.get(x, 4), piece(Player::Blue, RPS::Scissors, false));
    }
    assert_eq!(game.turns(), 1);
    assert_eq!(game.current_turn(), Player::Red);
    assert_eq!(game.winner(), None);
}

#[test]
fn invalid_setups_give_no_game() {
    let rules = Rules::new(OnlyForwardMove, EliminateCondition);
    let overlapping = Geometry { width: 3, height: 3, initial_rows: 2 };
    assert!(Game::with_geometry(rules.clone(), overlapping).is_none());
    let too_large = Geometry { width: usize::MAX, height: 2, initial_rows: 0 };
    assert!(Game::with_geometry(rules.clone(), too_large).is_none());
    assert!(!overlapping.is_valid());
    assert!(!too_large.is_valid());
    assert!(small().is_valid());
    assert!(Geometry::standard().is_valid());
    assert_eq!(Geometry::standard(), Geometry { width: 8, height: 8, initial_rows: 2 });
    assert!(Game::with_lineup(rules.clone(), small(), &[], &[RPS::Rock]).is_none());
    assert!(Game::with_lineup(rules.clone(), small(), &[RPS::Rock], &[RPS::Rock, RPS::Rock])
        .is_none());
    assert!(Game::with_lineup(rules, overlapping, &[RPS::Rock, RPS::Rock], &[
        RPS::Rock,
        RPS::Rock
    ])
    .is_none());
}

#[test]
fn empty_halves_are_allowed() {
    let geometry = Geometry { width: 2, height: 0, initial_rows: 0 };
    let mut game = game_on(geometry, &[], &[]);
    assert_eq!(game.field().width(), 2);
    assert_eq!(game.field().height(), 0);
    assert_eq!(game.make_move(forward(0, 0)), Err(MoveError::PositionOutOfBounds));
}

#[test]
fn relocation_moves_the_piece_unrevealed() {
    let mut game = game_on(small(), &[RPS::Paper], &[RPS::Rock]);
    assert_eq!(game.make_move(forward(1, 0)), Ok(None));
    let field = game.field();
    assert_eq!(field.get(1, 0), None);
    assert_eq!(field.get(1, 1), piece(Player::Red, RPS::Paper, false));
    assert_eq!(field.get(0, 0), piece(Player::Red, RPS::Paper, false));
    assert_eq!(field.get(1, 2), piece(Player::Blue, RPS::Rock, false));
}

#[test]
fn accepted_moves_alternate_the_turn() {
    let mut game = game_on(small(), &[RPS::Rock], &[RPS::Rock]);
    assert_eq!((game.turns(), game.current_turn()), (1, Player::Red));
    assert_eq!(game.make_move(forward(0, 0)), Ok(None));
    assert_eq!((game.turns(), game.current_turn()), (2, Player::Blue));
    assert_eq!(game.make_move(forward(2, 2)), Ok(None));
    assert_eq!((game.turns(), game.current_turn()), (3, Player::Red));
    assert_eq!(game.make_move(forward(0, 1)), Ok(Some(Outcome::Draw)));
    assert_eq!((game.turns(), game.current_turn()), (4, Player::Blue));
}

#[test]
fn rejected_moves_keep_turn_and_counter() {
    let mut game = game_on(small(), &[RPS::Rock], &[RPS::Rock]);
    assert_eq!(game.make_move(forward(0, 1)), Err(MoveError::NoUnitInPosition));
    assert_eq!((game.turns(), game.current_turn()), (1, Player::Red));
    assert_eq!(game.make_move(forward(0, 0)), Ok(None));
    assert_eq!(game.make_move(forward(1, 0)), Err(MoveError::WrongOwner));
    assert_eq!((game.turns(), game.current_turn()), (2, Player::Blue));
}

#[test]
fn attacker_wins_and_takes_the_cell() {
    let mut game = game_on(small(), &[RPS::Rock], &[RPS::Scissors]);
    assert_eq!(game.make_move(forward(0, 0)), Ok(None));
    assert_eq!(game.make_move(forward(2, 2)), Ok(None));
    assert_eq!(game.make_move(forward(0, 1)), Ok(Some(Outcome::Win)));
    let field = game.field();
    assert_eq!(field.get(0, 1), None);
    assert_eq!(field.get(0, 2), piece(Player::Red, RPS::Rock, true));
    assert_eq!(field.get(1, 2), piece(Player::Blue, RPS::Scissors, false));
    assert_eq!(game.winner(), None);
}

#[test]
fn attacker_loses_and_is_removed() {
    let mut game = game_on(small(), &[RPS::Rock], &[RPS::Scissors]);
    assert_eq!(game.make_move(forward(0, 0)), Ok(None));
    assert_eq!(game.make_move(forward(0, 2)), Ok(Some(Outcome::Lose)));
    let field = game.field();
    assert_eq!(field.get(0, 2), None);
    assert_eq!(field.get(0, 1), piece(Player::Red, RPS::Rock, true));
    assert_eq!(game.current_turn(), Player::Red);
    assert_eq!(game.turns(), 3);
}

#[test]
fn draw_leaves_both_in_place_and_revealed() {
    let mut game = game_on(small(), &[RPS::Paper], &[RPS::Paper]);
    assert_eq!(game.make_move(forward(1, 0)), Ok(None));
    assert_eq!(game.make_move(forward(1, 2)), Ok(Some(Outcome::Draw)));
    let field = game.field();
    assert_eq!(field.get(1, 1), piece(Player::Red, RPS::Paper, true));
    assert_eq!(field.get(1, 2), piece(Player::Blue, RPS::Paper, true));
    assert_eq!(field.get(0, 0), piece(Player::Red, RPS::Paper, false));
    assert_eq!(game.turns(), 3);
}

#[test]
fn revealed_pieces_stay_revealed() {
    let mut game = game_on(small(), &[RPS::Rock], &[RPS::Scissors]);
    assert_eq!(game.make_move(forward(0, 0)), Ok(None));
    assert_eq!(game.make_move(forward(0, 2)), Ok(Some(Outcome::Lose)));
    assert_eq!(game.field().get(0, 1), piece(Player::Red, RPS::Rock, true));
    // a plain relocation of the revealed piece
    assert_eq!(game.make_move(forward(0, 1)), Ok(None));
    assert_eq!(game.field().get(0, 2), piece(Player::Red, RPS::Rock, true));
    // a rejected move
    assert_eq!(game.make_move(forward(0, 0)), Err(MoveError::NoUnitInPosition));
    assert_eq!(game.field().get(0, 2), piece(Player::Red, RPS::Rock, true));
    // a move elsewhere on the board
    assert_eq!(game.make_move(forward(1, 2)), Ok(None));
    assert_eq!(game.field().get(0, 2), piece(Player::Red, RPS::Rock, true));
    // another engagement of the revealed piece's side
    assert_eq!(game.make_move(forward(1, 0)), Ok(Some(Outcome::Win)));
    assert_eq!(game.field().get(0, 2), piece(Player::Red, RPS::Rock, true));
    assert_eq!(game.field().get(1, 1), piece(Player::Red, RPS::Rock, true));
    game.force_win(Player::Blue);
    assert_eq!(game.field().get(0, 2), piece(Player::Red, RPS::Rock, true));
}

#[test]
fn elimination_ends_the_game() {
    let geometry = Geometry { width: 1, height: 2, initial_rows: 1 };
    let mut game = game_on(geometry, &[RPS::Scissors], &[RPS::Paper]);
    assert_eq!(game.make_move(forward(0, 0)), Ok(Some(Outcome::Win)));
    assert_eq!(game.winner(), Some(Player::Red));
    assert_eq!(game.turns(), 2);
    assert_eq!(game.current_turn(), Player::Blue);
    let before = cells(game.field());
    for _ in 0..3 {
        assert_eq!(game.make_move(forward(0, 1)), Err(MoveError::GameAlreadyFinished));
        assert_eq!(game.make_move(forward(0, 0)), Err(MoveError::GameAlreadyFinished));
        assert_eq!(game.make_move(Move::new(7, 7, Direction::Left)),
            Err(MoveError::GameAlreadyFinished));
    }
    assert_eq!(cells(game.field()), before);
    assert_eq!(game.winner(), Some(Player::Red));
    assert_eq!(game.turns(), 2);
    assert_eq!(game.current_turn(), Player::Blue);
}

#[test]
fn losing_the_last_piece_hands_the_win_to_the_defender() {
    let geometry = Geometry { width: 1, height: 2, initial_rows: 1 };
    let mut game = game_on(geometry, &[RPS::Rock], &[RPS::Paper]);
    assert_eq!(game.make_move(forward(0, 0)), Ok(Some(Outcome::Lose)));
    assert_eq!(game.winner(), Some(Player::Blue));
    assert_eq!(game.field().get(0, 0), None);
    assert_eq!(game.field().get(0, 1), piece(Player::Blue, RPS::Paper, true));
}

#[test]
fn force_win_sets_the_winner_once() {
    let mut game = game_on(small(), &[RPS::Rock], &[RPS::Rock]);
    let before = cells(game.field());
    game.force_win(Player::Blue);
    assert_eq!(game.winner(), Some(Player::Blue));
    game.force_win(Player::Red);
    assert_eq!(game.winner(), Some(Player::Blue));
    assert_eq!(game.make_move(forward(0, 0)), Err(MoveError::GameAlreadyFinished));
    assert_eq!(cells(game.field()), before);
    assert_eq!((game.turns(), game.current_turn()), (1, Player::Red));
}

#[test]
fn move_off_the_far_edge_is_out_of_bounds() {
    let mut game = game_on(small(), &[RPS::Rock], &[RPS::Scissors]);
    assert_eq!(game.make_move(forward(0, 0)), Ok(None));
    assert_eq!(game.make_move(forward(2, 2)), Ok(None));
    assert_eq!(game.make_move(forward(0, 1)), Ok(Some(Outcome::Win)));
    assert_eq!(game.make_move(forward(1, 2)), Ok(None));
    // Red stands on the last row and is asked to advance again.
    let before = cells(game.field());
    assert_eq!(game.make_move(forward(0, 2)), Err(MoveError::PositionOutOfBounds));
    assert_eq!(cells(game.field()), before);
    assert_eq!((game.turns(), game.current_turn()), (5, Player::Red));
}

#[test]
fn move_below_row_zero_is_out_of_bounds() {
    let mut game = game_on(small(), &[RPS::Rock], &[RPS::Paper]);
    assert_eq!(game.make_move(forward(0, 0)), Ok(None));
    assert_eq!(game.make_move(forward(0, 2)), Ok(Some(Outcome::Win)));
    assert_eq!(game.make_move(forward(1, 0)), Ok(None));
    assert_eq!(game.make_move(forward(0, 1)), Ok(None));
    assert_eq!(game.make_move(forward(2, 0)), Ok(None));
    // Blue stands on row 0 and is asked to advance again.
    assert_eq!(game.field().get(0, 0), piece(Player::Blue, RPS::Paper, true));
    let before = cells(game.field());
    assert_eq!(game.make_move(forward(0, 0)), Err(MoveError::PositionOutOfBounds));
    assert_eq!(cells(game.field()), before);
    assert_eq!((game.turns(), game.current_turn()), (6, Player::Blue));
}

#[test]
fn every_rejection_leaves_the_game_as_it_was() {
    let rules = Rules::new(OnlyForwardMove, EliminateCondition);
    let mut game: ForwardGame = Game::with_lineup(
        rules,
        Geometry::standard(),
        &[RPS::Rock, RPS::Paper],
        &[RPS::Scissors, RPS::Rock],
    )
    .unwrap();
    let before = cells(game.field());
    let rejected = [
        (Move::new(0, 1, Direction::Left), MoveError::DeclinedByMoveCondition),
        (Move::new(0, 1, Direction::Right), MoveError::DeclinedByMoveCondition),
        (Move::new(0, 1, Direction::Backward), MoveError::DeclinedByMoveCondition),
        (forward(8, 0), MoveError::PositionOutOfBounds),
        (forward(0, 8), MoveError::PositionOutOfBounds),
        (forward(usize::MAX, usize::MAX), MoveError::PositionOutOfBounds),
        (forward(3, 4), MoveError::NoUnitInPosition),
        (forward(3, 7), MoveError::WrongOwner),
        (forward(3, 0), MoveError::SameOwner),
    ];
    for (movement, error) in rejected {
        assert_eq!(game.make_move(movement), Err(error));
        assert_eq!(cells(game.field()), before);
        assert_eq!(game.turns(), 1);
        assert_eq!(game.current_turn(), Player::Red);
        assert_eq!(game.winner(), None);
    }
    game.force_win(Player::Red);
    assert_eq!(game.make_move(forward(0, 1)), Err(MoveError::GameAlreadyFinished));
    assert_eq!(cells(game.field()), before);
    assert_eq!(game.turns(), 1);
    assert_eq!(game.current_turn(), Player::Red);
}

#[test]
fn the_move_condition_is_asked_before_the_board() {
    let mut game = game_on(small(), &[RPS::Rock], &[RPS::Rock]);
    // off the grid, and sideways: the shape is judged first
    assert_eq!(game.make_move(Move::new(9, 9, Direction::Left)),
        Err(MoveError::DeclinedByMoveCondition));
    // an empty cell, and backwards
    assert_eq!(game.make_move(Move::new(1, 1, Direction::Backward)),
        Err(MoveError::DeclinedByMoveCondition));
}

#[test]
fn clone_is_independent() {
    let mut game = game_on(small(), &[RPS::Rock], &[RPS::Rock]);
    let copy = game.clone();
    assert_eq!(game.make_move(forward(0, 0)), Ok(None));
    assert_eq!(copy.turns(), 1);
    assert_eq!(copy.field().get(0, 0), piece(Player::Red, RPS::Rock, false));
    assert_eq!(game.field().get(0, 0), None);
}
