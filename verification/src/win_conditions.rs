//! The rules that say when a game is won.

use vstd::prelude::*;
use crate::field::{Board, Field};
use crate::pieces::Player;
use crate::unit::Unit;

verus! {

/// A rule that reads a board and names the winner, if the position has one.
pub trait WinCondition<K: Unit> {
    /// The winner that the rule finds on `board`.
    spec fn decides(&self, board: Board<K>) -> Option<Player>;

    /// Looks for a winner on `field`.
    fn winner(&self, field: &Field<K>) -> (winner: Option<Player>)
        ensures
            winner == self.decides(field@),
    ;
}

/// The rule under which a player wins once the opponent has no piece left
/// while the player still has one. A board without any piece has no winner.
#[derive(Clone, Copy, Debug, PartialEq, Eq)]
pub struct EliminateCondition;

/// Whether `player` has a piece anywhere on `field`.
fn has_unit_of<K: Unit>(field: &Field<K>, player: Player) -> (found: bool)
    ensures
        found == field@.has_unit_of(player),
{
    let width = field.width();
    let height = field.height();
    let mut y: usize = 0;
    while y < height
        invariant
            y <= height,
            width == field@.width,
            height == field@.height,
            forall|x2: int, y2: int| 0 <= y2 < y ==> !#[trigger] field@.holds_unit_of(x2, y2, player),
        decreases height - y,
    {
        let mut x: usize = 0;
        while x < width
            invariant
                x <= width,
                y < height,
                width == field@.width,
                height == field@.height,
                forall|x2: int, y2: int| 0 <= y2 < y ==> !#[trigger] field@.holds_unit_of(x2, y2, player),
                forall|x2: int| 0 <= x2 < x ==> !#[trigger] field@.holds_unit_of(x2, y as int, player),
            decreases width - x,
        {
            match field.get(x, y) {
                Some(unit) => {
                    if unit.owner() == player {
                        assert(field@.holds_unit_of(x as int, y as int, player));
                        return true;
                    }
                },
                None => {},
            }
            x += 1;
        }
        y += 1;
    }
    false
}

impl<K: Unit> WinCondition<K> for EliminateCondition {
    open spec fn decides(&self, board: Board<K>) -> Option<Player> {
        if board.has_unit_of(Player::Red) && !board.has_unit_of(Player::Blue) {
            Some(Player::Red)
        } else if board.has_unit_of(Player::Blue) && !board.has_unit_of(Player::Red) {
            Some(Player::Blue)
        } else {
            None
        }
    }

    fn winner(&self, field: &Field<K>) -> (winner: Option<Player>) {
        let red = has_unit_of(field, Player::Red);
        let blue = has_unit_of(field, Player::Blue);
        if red && !blue {
            Some(Player::Red)
        } else if blue && !red {
            Some(Player::Blue)
        } else {
            None
        }
    }
}

} // verus!
