//! Moves, and the rules that say which move shapes are legal.

use vstd::prelude::*;
use crate::pieces::Player;

verus! {

/// The direction of a move, relative to the way the mover faces.
#[derive(Clone, Copy, Debug, PartialEq, Eq, Structural)]
pub enum Direction {
    Forward,
    Backward,
    Left,
    Right,
}

/// The change of row index of one step forward: Red advances toward higher
/// rows, Blue toward lower ones.
pub open spec fn facing(mover: Player) -> int {
    match mover {
        Player::Red => 1,
        Player::Blue => -1,
    }
}

impl Direction {
    /// The displacement `(dx, dy)` of one step in this direction by `mover`.
    /// Left and right are the mover's own: they swap with the facing.
    pub open spec fn offset(self, mover: Player) -> (int, int) {
        match self {
            Direction::Forward => (0, facing(mover)),
            Direction::Backward => (0, -facing(mover)),
            Direction::Left => (-facing(mover), 0),
            Direction::Right => (facing(mover), 0),
        }
    }
}

/// A proposed move: the cell it starts from and the direction of its one step.
#[derive(Clone, Copy, Debug, PartialEq, Eq)]
pub struct Move {
    pub from: (usize, usize),
    pub direction: Direction,
}

/// One step along an axis, where the coordinate stays representable.
fn step(coordinate: usize, up: bool) -> (stepped: Option<usize>)
    ensures
        match stepped {
            Some(c) => c == coordinate + (if up { 1int } else { -1int }),
            None => if up { coordinate == usize::MAX } else { coordinate == 0 },
        },
{
    if up {
        coordinate.checked_add(1)
    } else {
        coordinate.checked_sub(1)
    }
}

impl Move {
    /// The move from column `x`, row `y`, one step in `direction`.
    pub fn new(x: usize, y: usize, direction: Direction) -> (movement: Move)
        ensures
            movement == (Move { from: (x, y), direction }),
    {
        Move { from: (x, y), direction }
    }

    /// The cell the move leads to when `mover` makes it, as a point of the
    /// plane: it may lie off every board.
    pub open spec fn spec_target(self, mover: Player) -> (int, int) {
        (self.from.0 + self.direction.offset(mover).0, self.from.1 + self.direction.offset(mover).1)
    }

    /// The cell the move leads to when `mover` makes it, or `None` where a
    /// coordinate of that cell is negative or above `usize::MAX`.
    pub fn apply(&self, mover: Player) -> (target: Option<(usize, usize)>)
        ensures
            match target {
                Some((x, y)) => (x as int, y as int) == self.spec_target(mover),
                None => {
                    let (x, y) = self.spec_target(mover);
                    x < 0 || y < 0 || x > usize::MAX || y > usize::MAX
                },
            },
    {
        let (x, y) = self.from;
        let up = match mover {
            Player::Red => true,
            Player::Blue => false,
        };
        match self.direction {
            Direction::Forward => match step(y, up) {
                Some(y) => Some((x, y)),
                None => None,
            },
            Direction::Backward => match step(y, !up) {
                Some(y) => Some((x, y)),
                None => None,
            },
            Direction::Left => match step(x, !up) {
                Some(x) => Some((x, y)),
                None => None,
            },
            Direction::Right => match step(x, up) {
                Some(x) => Some((x, y)),
                None => None,
            },
        }
    }
}

/// A rule on the shape of moves. It sees the move and who makes it, never the
/// board.
pub trait MoveCondition {
    /// Whether the rule lets `mover` make `movement`.
    spec fn allows(&self, movement: Move, mover: Player) -> bool;

    /// Judges the shape of `movement` for `mover`.
    fn is_valid(&self, movement: Move, mover: Player) -> (valid: bool)
        ensures
            valid == self.allows(movement, mover),
    ;
}

/// The rule under which a piece may only advance: one cell, straight ahead.
#[derive(Clone, Copy, Debug, PartialEq, Eq)]
pub struct OnlyForwardMove;

impl MoveCondition for OnlyForwardMove {
    open spec fn allows(&self, movement: Move, mover: Player) -> bool {
        movement.direction.offset(mover) == (0int, facing(mover))
    }

    fn is_valid(&self, movement: Move, mover: Player) -> (valid: bool) {
        movement.direction == Direction::Forward
    }
}

} // verus!
