//! The game as a state machine over mathematical values: what a state is,
//! which moves it accepts, and what an accepted move leaves behind.

use vstd::prelude::*;
use crate::field::Board;
use crate::move_conditions::Move;
use crate::pieces::{Outcome, Player};
use crate::unit::GeneralUnit;

verus! {

/// Why a move was rejected.
#[derive(Clone, Copy, Debug, PartialEq, Eq, Structural)]
pub enum MoveError {
    /// The game already has a winner.
    GameAlreadyFinished,
    /// The move condition of the game does not allow the shape of the move.
    DeclinedByMoveCondition,
    /// The cell the move starts from, or the cell it leads to, is off the grid.
    PositionOutOfBounds,
    /// The piece to move belongs to the player who is not to move.
    WrongOwner,
    /// The cell the move starts from is empty.
    NoUnitInPosition,
    /// The cell the move leads to holds a piece of the mover's own.
    SameOwner,
    /// The combat could not be classified. No move of a game gives this error:
    /// pieces on the board always classify their combats.
    UnexpextedError,
}

/// The state of a game.
#[verifier::ext_equal]
pub struct GameState {
    /// The number of the turn to be played, counted from 1.
    pub turns: nat,
    /// The player to move.
    pub current_turn: Player,
    pub winner: Option<Player>,
    pub board: Board<GeneralUnit>,
}

impl GameState {
    /// The state in which a game on `board` begins.
    pub open spec fn initial(board: Board<GeneralUnit>) -> GameState {
        GameState { turns: 1, current_turn: Player::Red, winner: None, board }
    }

    /// The state after `player` has been declared the winner from outside the
    /// rules: a game without a winner gets this one, a finished game stays as
    /// it is.
    pub open spec fn forced(self, player: Player) -> GameState {
        GameState {
            turns: self.turns,
            current_turn: self.current_turn,
            winner: if self.winner is Some {
                self.winner
            } else {
                Some(player)
            },
            board: self.board,
        }
    }
}

/// What can happen to a game: a player asks for a move, or a winner is
/// declared from outside the rules.
pub enum Action {
    Play(Move),
    ForceWin(Player),
}

/// The answer to `movement` in `state`, where `allowed` says whether the move
/// condition of the game allows the move to the player to move: the error that
/// rejects the move, or else the outcome of the combat it starts, if it starts
/// one.
pub open spec fn verdict(state: GameState, movement: Move, allowed: bool) -> Result<
    Option<Outcome>,
    MoveError,
> {
    let (from_x, from_y) = (movement.from.0 as int, movement.from.1 as int);
    if state.winner is Some {
        Err(MoveError::GameAlreadyFinished)
    } else if !allowed {
        Err(MoveError::DeclinedByMoveCondition)
    } else if !state.board.contains(from_x, from_y) {
        Err(MoveError::PositionOutOfBounds)
    } else {
        match state.board.at(from_x, from_y) {
            None => Err(MoveError::NoUnitInPosition),
            Some(unit) => {
                let (to_x, to_y) = movement.spec_target(unit.owner);
                if unit.owner != state.current_turn {
                    Err(MoveError::WrongOwner)
                } else if !state.board.contains(to_x, to_y) {
                    Err(MoveError::PositionOutOfBounds)
                } else {
                    match state.board.at(to_x, to_y) {
                        None => Ok(None),
                        Some(defender) => if defender.owner == state.current_turn {
                            Err(MoveError::SameOwner)
                        } else {
                            Ok(Some(unit.kind.spec_attack(defender.kind)))
                        },
                    }
                }
            },
        }
    }
}

/// The board that an accepted `movement` leaves behind. The piece at the
/// origin moves into an empty target unchanged. Against an occupant it wins and
/// takes the target, loses and is removed, or draws and stays; every piece that
/// survives an engagement is revealed.
pub open spec fn board_after(board: Board<GeneralUnit>, movement: Move) -> Board<GeneralUnit>
    recommends
        board.at(movement.from.0 as int, movement.from.1 as int) is Some,
{
    let (from_x, from_y) = (movement.from.0 as int, movement.from.1 as int);
    let unit = board.at(from_x, from_y)->Some_0;
    let (to_x, to_y) = movement.spec_target(unit.owner);
    match board.at(to_x, to_y) {
        None => board.put(to_x, to_y, Some(unit)).put(from_x, from_y, None),
        Some(defender) => match unit.kind.spec_attack(defender.kind) {
            Outcome::Win => board.put(to_x, to_y, Some(unit.spec_revealed())).put(
                from_x,
                from_y,
                None,
            ),
            Outcome::Lose => board.put(from_x, from_y, None).put(
                to_x,
                to_y,
                Some(defender.spec_revealed()),
            ),
            Outcome::Draw => board.put(from_x, from_y, Some(unit.spec_revealed())).put(
                to_x,
                to_y,
                Some(defender.spec_revealed()),
            ),
        },
    }
}

/// The cell in which the piece that stands at `(x, y)` after an accepted
/// `movement` stood before it: the origin of the move for the piece that the
/// move carried to its target, and `(x, y)` itself for every other piece.
pub open spec fn came_from(board: Board<GeneralUnit>, movement: Move, x: int, y: int) -> (
    int,
    int,
)
    recommends
        board.at(movement.from.0 as int, movement.from.1 as int) is Some,
{
    let (from_x, from_y) = (movement.from.0 as int, movement.from.1 as int);
    let unit = board.at(from_x, from_y)->Some_0;
    let carried = match board.at(movement.spec_target(unit.owner).0, movement.spec_target(unit.owner).1) {
        None => true,
        Some(defender) => unit.kind.spec_attack(defender.kind) == Outcome::Win,
    };
    if carried && (x, y) == movement.spec_target(unit.owner) {
        (from_x, from_y)
    } else {
        (x, y)
    }
}

} // verus!
