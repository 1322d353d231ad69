//! What holds of every game, whatever the rules it is played under.

use vstd::prelude::*;
use crate::game::Rules;
use crate::move_conditions::{Move, MoveCondition};
use crate::pieces::{Outcome, Player, RPS};
use crate::transition::{board_after, came_from, verdict, Action, GameState, MoveError};
use crate::unit::GeneralUnit;
use crate::win_conditions::WinCondition;

verus! {

/// Dominance is cyclic: an attack is won exactly by rock on scissors, scissors
/// on paper and paper on rock; it is drawn exactly between equal kinds; and it
/// is lost exactly on the three pairs that are won the other way round.
pub proof fn lemma_cyclic_dominance(a: RPS, b: RPS)
    ensures
        a.spec_attack(b) == Outcome::Win <==> (a == RPS::Rock && b == RPS::Scissors) || (a
            == RPS::Scissors && b == RPS::Paper) || (a == RPS::Paper && b == RPS::Rock),
        a.spec_attack(b) == Outcome::Draw <==> a == b,
        a.spec_attack(b) == Outcome::Lose <==> (b == RPS::Rock && a == RPS::Scissors) || (b
            == RPS::Scissors && a == RPS::Paper) || (b == RPS::Paper && a == RPS::Rock),
{
}

/// Combat is anti-symmetric: an attack is won exactly when the attack the
/// other way round is lost, and a kind draws against itself.
pub proof fn lemma_attack_antisymmetric(a: RPS, b: RPS)
    ensures
        a.spec_attack(b) == Outcome::Win <==> b.spec_attack(a) == Outcome::Lose,
        a.spec_attack(a) == Outcome::Draw,
{
}

/// The turn passes back and forth: the player after the next is the same
/// player again, and never the next one.
pub proof fn lemma_turns_alternate(player: Player)
    ensures
        player.spec_next() != player,
        player.spec_next().spec_next() == player,
{
}

/// An accepted move passes the turn to the other player and adds one to the
/// turn counter; a rejected move leaves both as they were.
pub proof fn lemma_turn_alternation<T: MoveCondition, E: WinCondition<GeneralUnit>>(
    rules: Rules<GeneralUnit, T, E>,
    state: GameState,
    movement: Move,
)
    ensures
        rules.verdict(state, movement) is Ok ==> {
            &&& rules.step(state, movement).turns == state.turns + 1
            &&& rules.step(state, movement).current_turn == state.current_turn.spec_next()
            &&& rules.step(state, movement).current_turn != state.current_turn
        },
        rules.verdict(state, movement) is Err ==> {
            &&& rules.step(state, movement).turns == state.turns
            &&& rules.step(state, movement).current_turn == state.current_turn
        },
{
}

/// A rejected move changes nothing: whatever the error, the state after the
/// move is the state before it.
pub proof fn lemma_rejection_changes_nothing<T: MoveCondition, E: WinCondition<GeneralUnit>>(
    rules: Rules<GeneralUnit, T, E>,
    state: GameState,
    movement: Move,
)
    ensures
        rules.verdict(state, movement) is Err ==> rules.step(state, movement) == state,
{
}

/// A finished game stays finished: once there is a winner, nothing that
/// happens to the game changes its state again, be it a move or a winner
/// declared from outside, and every move is answered with
/// `GameAlreadyFinished`.
pub proof fn lemma_finished_is_final<T: MoveCondition, E: WinCondition<GeneralUnit>>(
    rules: Rules<GeneralUnit, T, E>,
    state: GameState,
    actions: Seq<Action>,
)
    requires
        state.winner is Some,
    ensures
        rules.run(state, actions) == state,
        forall|i: int|
            0 <= i < actions.len() ==> (#[trigger] actions[i] matches Action::Play(movement)
                ==> rules.verdict(rules.run(state, actions.take(i)), movement) == Err::<
                Option<Outcome>,
                MoveError,
            >(MoveError::GameAlreadyFinished)),
    decreases actions.len(),
{
    if actions.len() > 0 {
        lemma_finished_is_final(rules, state, actions.drop_last());
        assert forall|i: int| 0 <= i < actions.len() implies (#[trigger] actions[i] matches Action::Play(
            movement,
        ) ==> rules.verdict(rules.run(state, actions.take(i)), movement) == Err::<
            Option<Outcome>,
            MoveError,
        >(MoveError::GameAlreadyFinished)) by {
            lemma_finished_is_final(rules, state, actions.take(i));
        }
    }
}

/// A move that would leave the grid is rejected with `PositionOutOfBounds`,
/// though the move condition allows it: in a game that is not finished, a
/// move from a cell off the grid is out of bounds, and so is a move of a piece
/// of the player to move whose target is off the grid.
pub proof fn lemma_off_grid_is_out_of_bounds(state: GameState, movement: Move)
    requires
        state.winner is None,
        !state.board.contains(movement.from.0 as int, movement.from.1 as int) || ({
            &&& state.board.at(movement.from.0 as int, movement.from.1 as int) matches Some(unit)
            &&& unit.owner == state.current_turn
            &&& !state.board.contains(
                movement.spec_target(unit.owner).0,
                movement.spec_target(unit.owner).1,
            )
        }),
    ensures
        verdict(state, movement, true) == Err::<Option<Outcome>, MoveError>(
            MoveError::PositionOutOfBounds,
        ),
{
}

/// No move is answered with `UnexpextedError`.
pub proof fn lemma_combat_is_classified(state: GameState, movement: Move, allowed: bool)
    ensures
        verdict(state, movement, allowed) != Err::<Option<Outcome>, MoveError>(
            MoveError::UnexpextedError,
        ),
{
}

/// An accepted move keeps the board's dimensions and records, as before,
/// exactly the cells of the grid.
pub proof fn lemma_board_after_wf(state: GameState, movement: Move, allowed: bool)
    requires
        state.board.wf(),
        verdict(state, movement, allowed) is Ok,
    ensures
        board_after(state.board, movement).wf(),
        board_after(state.board, movement).width == state.board.width,
        board_after(state.board, movement).height == state.board.height,
{
}

/// Across an accepted move every piece keeps its owner and its kind, and a
/// revealed piece stays revealed: the piece that stands at `(x, y)` after the
/// move stood at `came_from(.., x, y)` before it.
pub proof fn lemma_move_keeps_pieces(
    state: GameState,
    movement: Move,
    allowed: bool,
    x: int,
    y: int,
)
    requires
        state.board.wf(),
        verdict(state, movement, allowed) is Ok,
        state.board.contains(x, y),
        board_after(state.board, movement).at(x, y) is Some,
    ensures
        ({
            let source = came_from(state.board, movement, x, y);
            let after = board_after(state.board, movement).at(x, y)->Some_0;
            &&& state.board.contains(source.0, source.1)
            &&& state.board.at(source.0, source.1) matches Some(before)
            &&& before.owner == after.owner
            &&& before.kind == after.kind
            &&& before.visible ==> after.visible
        }),
{
}

/// Whatever happens to a game, the board keeps its dimensions and records
/// exactly the cells of the grid.
pub proof fn lemma_run_keeps_grid<T: MoveCondition, E: WinCondition<GeneralUnit>>(
    rules: Rules<GeneralUnit, T, E>,
    state: GameState,
    actions: Seq<Action>,
)
    requires
        state.board.wf(),
    ensures
        rules.run(state, actions).board.wf(),
        rules.run(state, actions).board.width == state.board.width,
        rules.run(state, actions).board.height == state.board.height,
    decreases actions.len(),
{
    if actions.len() > 0 {
        lemma_run_keeps_grid(rules, state, actions.drop_last());
        let earlier = rules.run(state, actions.drop_last());
        match actions.last() {
            Action::Play(movement) => {
                if rules.verdict(earlier, movement) is Ok {
                    lemma_board_after_wf(
                        earlier,
                        movement,
                        rules.spec_move_condition().allows(movement, earlier.current_turn),
                    );
                }
            },
            Action::ForceWin(_) => {},
        }
    }
}

/// Visibility is monotonic: whatever happens to a game, moves accepted or
/// rejected and winners declared from outside, a piece on the board afterwards
/// is a piece that was on the board before, with the same owner and kind, and
/// if it was revealed before, it is revealed afterwards.
pub proof fn lemma_visibility_is_monotonic<T: MoveCondition, E: WinCondition<GeneralUnit>>(
    rules: Rules<GeneralUnit, T, E>,
    state: GameState,
    actions: Seq<Action>,
    x: int,
    y: int,
)
    requires
        state.board.wf(),
        state.board.contains(x, y),
        rules.run(state, actions).board.at(x, y) is Some,
    ensures
        ({
            let source = rules.origin(state, actions, x, y);
            let after = rules.run(state, actions).board.at(x, y)->Some_0;
            &&& state.board.contains(source.0, source.1)
            &&& state.board.at(source.0, source.1) matches Some(before)
            &&& before.owner == after.owner
            &&& before.kind == after.kind
            &&& before.visible ==> after.visible
        }),
    decreases actions.len(),
{
    if actions.len() > 0 {
        let earlier = rules.run(state, actions.drop_last());
        lemma_run_keeps_grid(rules, state, actions.drop_last());
        match actions.last() {
            Action::Play(movement) if rules.verdict(earlier, movement) is Ok => {
                let allowed = rules.spec_move_condition().allows(movement, earlier.current_turn);
                lemma_move_keeps_pieces(earlier, movement, allowed, x, y);
                let source = came_from(earlier.board, movement, x, y);
                lemma_visibility_is_monotonic(rules, state, actions.drop_last(), source.0, source.1);
            },
            _ => {
                lemma_visibility_is_monotonic(rules, state, actions.drop_last(), x, y);
            },
        }
    }
}

} // verus!
