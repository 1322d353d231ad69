//! The game: a board, the player to move, the turn counter and the winner,
//! under the rules chosen when the game was set up.

use vstd::prelude::*;
use crate::field::{Board, Field, PovField};
use crate::move_conditions::{Move, MoveCondition};
use crate::pieces::{Outcome, Player, RPS};
use crate::transition::{board_after, came_from, verdict, Action, GameState, MoveError};
use crate::unit::{GeneralUnit, Unit};
use crate::win_conditions::WinCondition;

verus! {

/// Width of the standard board.
pub const WIDTH: usize = 8;

/// Height of the standard board.
pub const HEIGHT: usize = 8;

/// Number of rows that each side fills on the standard board.
pub const ROWS: usize = 2;

/// The rules of one game: which moves are legal, and when the game is won.
/// `K` is the piece type that the win condition reads.
#[derive(Debug)]
pub struct Rules<K: Unit, T: MoveCondition, E: WinCondition<K>> {
    pub move_condition: T,
    pub win_condition: E,
    phantom_data: std::marker::PhantomData<K>,
}

impl<K: Unit, T: MoveCondition, E: WinCondition<K>> Rules<K, T, E> {
    /// The rule on the shape of moves.
    pub closed spec fn spec_move_condition(&self) -> T {
        self.move_condition
    }

    /// The rule that finds the winner.
    pub closed spec fn spec_win_condition(&self) -> E {
        self.win_condition
    }

    /// The rules made of the two conditions.
    pub fn new(move_condition: T, win_condition: E) -> (rules: Rules<K, T, E>)
        ensures
            rules.spec_move_condition() == move_condition,
            rules.spec_win_condition() == win_condition,
    {
        Rules { move_condition, win_condition, phantom_data: std::marker::PhantomData }
    }
}

impl<K: Unit, T: MoveCondition + Clone, E: WinCondition<K> + Clone> Clone for Rules<K, T, E> {
    fn clone(&self) -> Self {
        Rules {
            move_condition: self.move_condition.clone(),
            win_condition: self.win_condition.clone(),
            phantom_data: std::marker::PhantomData,
        }
    }
}

impl<T: MoveCondition, E: WinCondition<GeneralUnit>> Rules<GeneralUnit, T, E> {
    /// The answer of a game under these rules to `movement` in `state`.
    pub open spec fn verdict(&self, state: GameState, movement: Move) -> Result<
        Option<Outcome>,
        MoveError,
    > {
        verdict(state, movement, self.spec_move_condition().allows(movement, state.current_turn))
    }

    /// The state that follows `state` once `movement` has been answered: the
    /// same state where the move is rejected; where it is accepted, the board
    /// the move leaves behind, the winner that the win condition finds on that
    /// board, the next turn and the other player to move.
    pub open spec fn step(&self, state: GameState, movement: Move) -> GameState {
        if self.verdict(state, movement) is Ok {
            let board = board_after(state.board, movement);
            GameState {
                turns: state.turns + 1,
                current_turn: state.current_turn.spec_next(),
                winner: self.spec_win_condition().decides(board),
                board,
            }
        } else {
            state
        }
    }

    /// The state that follows `state` once `action` has been dealt with.
    pub open spec fn act(&self, state: GameState, action: Action) -> GameState {
        match action {
            Action::Play(movement) => self.step(state, movement),
            Action::ForceWin(player) => state.forced(player),
        }
    }

    /// The state that follows `state` once the actions of `actions` have been
    /// dealt with in turn.
    pub open spec fn run(&self, state: GameState, actions: Seq<Action>) -> GameState
        decreases actions.len(),
    {
        if actions.len() == 0 {
            state
        } else {
            self.act(self.run(state, actions.drop_last()), actions.last())
        }
    }

    /// The cell of `state` in which the piece stood that stands at `(x, y)`
    /// once the actions of `actions` have been dealt with in turn.
    pub open spec fn origin(&self, state: GameState, actions: Seq<Action>, x: int, y: int) -> (
        int,
        int,
    )
        decreases actions.len(),
    {
        if actions.len() == 0 {
            (x, y)
        } else {
            let earlier = self.run(state, actions.drop_last());
            let source = match actions.last() {
                Action::Play(movement) if self.verdict(earlier, movement) is Ok => came_from(
                    earlier.board,
                    movement,
                    x,
                    y,
                ),
                _ => (x, y),
            };
            self.origin(state, actions.drop_last(), source.0, source.1)
        }
    }
}

/// The dimensions of a board and the number of rows that each side fills at
/// the start.
#[derive(Clone, Copy, Debug, PartialEq, Eq)]
pub struct Geometry {
    pub width: usize,
    pub height: usize,
    pub initial_rows: usize,
}

impl Geometry {
    /// The cells of the board can be counted in a `usize`, and the rows of the
    /// two sides do not meet.
    pub open spec fn valid(self) -> bool {
        &&& self.width * self.height <= usize::MAX
        &&& 2 * self.initial_rows <= self.height
    }

    /// Whether a game can be set up with this geometry.
    pub fn is_valid(&self) -> (valid: bool)
        ensures
            valid == self.valid(),
    {
        self.width.checked_mul(self.height).is_some() && self.initial_rows <= self.height / 2
    }

    /// The geometry of the standard board.
    pub open spec fn spec_standard() -> Geometry {
        Geometry { width: WIDTH, height: HEIGHT, initial_rows: ROWS }
    }

    /// The geometry of the standard board.
    #[verifier::when_used_as_spec(spec_standard)]
    pub fn standard() -> (geometry: Geometry)
        ensures
            geometry == Geometry::spec_standard(),
            geometry.valid(),
    {
        assert(WIDTH * HEIGHT == 64);
        Geometry { width: WIDTH, height: HEIGHT, initial_rows: ROWS }
    }

    /// Whether `state` is a state in which a game of this geometry may begin:
    /// the first turn, Red to move, no winner, and a board on which each of
    /// the `initial_rows` rows of either side is filled with unrevealed pieces
    /// of one kind.
    pub open spec fn opens_with(self, state: GameState) -> bool {
        exists|red: Seq<RPS>, blue: Seq<RPS>|
            {
                &&& red.len() == self.initial_rows
                &&& blue.len() == self.initial_rows
                &&& state == GameState::initial(
                    #[trigger] Board::lineup(self.width as nat, self.height as nat, red, blue),
                )
            }
    }
}

/// A game in progress or finished.
#[derive(Debug)]
pub struct Game<T: MoveCondition, E: WinCondition<GeneralUnit>> {
    turns: u32,
    current_turn: Player,
    winner: Option<Player>,
    field: Field<GeneralUnit>,
    rules: Rules<GeneralUnit, T, E>,
}

impl<T: MoveCondition, E: WinCondition<GeneralUnit>> View for Game<T, E> {
    type V = GameState;

    closed spec fn view(&self) -> GameState {
        GameState {
            turns: self.turns as nat,
            current_turn: self.current_turn,
            winner: self.winner,
            board: self.field@,
        }
    }
}

impl<T: MoveCondition + Clone, E: WinCondition<GeneralUnit> + Clone> Clone for Game<T, E> {
    fn clone(&self) -> (copy: Self)
        ensures
            copy@ == self@,
    {
        Game {
            turns: self.turns,
            current_turn: self.current_turn,
            winner: self.winner,
            field: self.field.clone(),
            rules: self.rules.clone(),
        }
    }
}

impl<T: MoveCondition, E: WinCondition<GeneralUnit>> Game<T, E> {
    /// The rules the game is played under.
    pub closed spec fn spec_rules(&self) -> Rules<GeneralUnit, T, E> {
        self.rules
    }

    /// The board of a game always records exactly the cells of its grid.
    pub proof fn lemma_board_wf(self)
        ensures
            self@.board.wf(),
    {
        self.field.lemma_view_wf();
    }

    /// A game on the board that the line-ups `red` and `blue` give: row `i`
    /// from Red's edge holds pieces of kind `red[i]`, row `i` from Blue's edge
    /// pieces of kind `blue[i]`. `None` where the geometry is not valid or a
    /// line-up does not have one kind for each of the initial rows.
    pub fn with_lineup(
        rules: Rules<GeneralUnit, T, E>,
        geometry: Geometry,
        red: &[RPS],
        blue: &[RPS],
    ) -> (game: Option<Game<T, E>>)
        ensures
            game is Some <==> geometry.valid() && red@.len() == geometry.initial_rows && blue@.len()
                == geometry.initial_rows,
            game matches Some(g) ==> g.spec_rules() == rules && g@ == GameState::initial(
                Board::lineup(geometry.width as nat, geometry.height as nat, red@, blue@),
            ),
    {
        if !geometry.is_valid() || red.len() != geometry.initial_rows || blue.len()
            != geometry.initial_rows {
            return None;
        }
        let width = geometry.width;
        let height = geometry.height;
        let rows = geometry.initial_rows;
        let mut field: Field<GeneralUnit> = Field::empty(width, height).unwrap();
        assert(field@ =~= Board::lineup(width as nat, height as nat, red@.take(0), blue@.take(0)));
        let mut i: usize = 0;
        while i < rows
            invariant
                i <= rows,
                rows == red@.len(),
                rows == blue@.len(),
                2 * rows <= height,
                field@ == Board::lineup(
                    width as nat,
                    height as nat,
                    red@.take(i as int),
                    blue@.take(i as int),
                ),
            decreases rows - i,
        {
            field.fill_row(i, Some(Player::Red.unit(red[i])));
            field.fill_row(height - 1 - i, Some(Player::Blue.unit(blue[i])));
            assert(field@ =~= Board::lineup(
                width as nat,
                height as nat,
                red@.take(i + 1),
                blue@.take(i + 1),
            ));
            i += 1;
        }
        assert(red@.take(rows as int) =~= red@);
        assert(blue@.take(rows as int) =~= blue@);
        Some(Game { turns: 1, current_turn: Player::Red, winner: None, field, rules })
    }

    /// A game of the given geometry on a board whose line-ups are left to
    /// chance. `None` where the geometry is not valid.
    pub fn with_geometry(rules: Rules<GeneralUnit, T, E>, geometry: Geometry) -> (game: Option<
        Game<T, E>,
    >)
        ensures
            game is Some <==> geometry.valid(),
            game matches Some(g) ==> g.spec_rules() == rules && geometry.opens_with(g@),
    {
        if !geometry.is_valid() {
            return None;
        }
        let rows = geometry.initial_rows;
        let mut red: Vec<RPS> = Vec::new();
        let mut blue: Vec<RPS> = Vec::new();
        let mut i: usize = 0;
        while i < rows
            invariant
                i <= rows,
                red@.len() == i,
                blue@.len() == i,
            decreases rows - i,
        {
            red.push(RPS::random());
            blue.push(RPS::random());
            i += 1;
        }
        Self::with_lineup(rules, geometry, red.as_slice(), blue.as_slice())
    }

    /// A game on the standard board, with line-ups left to chance.
    pub fn new(rules: Rules<GeneralUnit, T, E>) -> (game: Game<T, E>)
        ensures
            game.spec_rules() == rules,
            Geometry::standard().opens_with(game@),
    {
        Self::with_geometry(rules, Geometry::standard()).unwrap()
    }

    /// The number of the turn to be played, counted from 1.
    pub fn turns(&self) -> (turns: u32)
        ensures
            turns == self@.turns,
    {
        self.turns
    }

    /// The player to move.
    pub fn current_turn(&self) -> (player: Player)
        ensures
            player == self@.current_turn,
    {
        self.current_turn
    }

    /// The winner, once the game has one.
    pub fn winner(&self) -> (winner: Option<Player>)
        ensures
            winner == self@.winner,
    {
        self.winner
    }

    /// The board.
    pub fn field(&self) -> (field: &Field<GeneralUnit>)
        ensures
            field@ == self@.board,
    {
        &self.field
    }

    /// Declares `player` the winner, unless the game already has one.
    pub fn force_win(&mut self, player: Player)
        ensures
            final(self)@ == old(self)@.forced(player),
            final(self).spec_rules() == old(self).spec_rules(),
    {
        if !self.winner.is_some() {
            self.winner = Some(player);
        }
    }

    /// The board as `player` sees it.
    pub fn perspective(&self, player: Player) -> (pov: PovField)
        ensures
            pov@ == self@.board.seen_by(player),
            pov.spec_viewer() == player,
    {
        PovField::from(&self.field, player)
    }

    /// Plays `movement` for the player to move. A rejected move changes
    /// nothing. An accepted move changes the board, has the win condition look
    /// for a winner on the new board, and passes the turn.
    pub fn make_move(&mut self, movement: Move) -> (result: Result<Option<Outcome>, MoveError>)
        requires
            old(self).spec_rules().verdict(old(self)@, movement) is Ok ==> old(self)@.turns
                < u32::MAX,
        ensures
            result == old(self).spec_rules().verdict(old(self)@, movement),
            final(self)@ == old(self).spec_rules().step(old(self)@, movement),
            final(self).spec_rules() == old(self).spec_rules(),
            result is Err ==> *final(self) == *old(self),
            result is Ok ==> final(self)@.turns == old(self)@.turns + 1 && final(self)@.current_turn
                == old(self)@.current_turn.spec_next(),
            old(self)@.winner is Some ==> result == Err::<Option<Outcome>, MoveError>(
                MoveError::GameAlreadyFinished,
            ),
            result != Err::<Option<Outcome>, MoveError>(MoveError::UnexpextedError),
    {
        if self.winner.is_some() {
            return Err(MoveError::GameAlreadyFinished);
        }
        if !self.rules.move_condition.is_valid(movement, self.current_turn) {
            return Err(MoveError::DeclinedByMoveCondition);
        }
        let (from_x, from_y) = movement.from;
        if from_x >= self.field.width() || from_y >= self.field.height() {
            return Err(MoveError::PositionOutOfBounds);
        }
        let unit = match self.field.get(from_x, from_y) {
            Some(unit) => unit,
            None => {
                return Err(MoveError::NoUnitInPosition);
            },
        };
        if unit.owner != self.current_turn {
            return Err(MoveError::WrongOwner);
        }
        let (to_x, to_y) = match movement.apply(unit.owner) {
            Some(target) => target,
            None => {
                return Err(MoveError::PositionOutOfBounds);
            },
        };
        if to_x >= self.field.width() || to_y >= self.field.height() {
            return Err(MoveError::PositionOutOfBounds);
        }
        let attack_outcome = match self.field.get(to_x, to_y) {
            Some(defender) => {
                if defender.owner == self.current_turn {
                    return Err(MoveError::SameOwner);
                }
                match unit.attack(&defender) {
                    Some(outcome) => Some((outcome, defender)),
                    None => {
                        return Err(MoveError::UnexpextedError);
                    },
                }
            },
            None => None,
        };
        let result = match attack_outcome {
            Some((outcome, defender)) => {
                match outcome {
                    Outcome::Win => {
                        self.field.set(to_x, to_y, Some(unit.revealed()));
                        self.field.set(from_x, from_y, None);
                    },
                    Outcome::Lose => {
                        self.field.set(from_x, from_y, None);
                        self.field.set(to_x, to_y, Some(defender.revealed()));
                    },
                    Outcome::Draw => {
                        self.field.set(from_x, from_y, Some(unit.revealed()));
                        self.field.set(to_x, to_y, Some(defender.revealed()));
                    },
                }
                Some(outcome)
            },
            None => {
                self.field.set(to_x, to_y, Some(unit));
                self.field.set(from_x, from_y, None);
                None
            },
        };
        self.winner = self.rules.win_condition.winner(&self.field);
        self.turns += 1;
        self.current_turn = self.current_turn.next();
        Ok(result)
    }
}

} // verus!
