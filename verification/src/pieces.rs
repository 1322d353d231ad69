//! The plain values of the game: players, piece kinds and combat outcomes.

use vstd::prelude::*;
use crate::random::random_index;
use crate::unit::GeneralUnit;

verus! {

/// One of the two sides.
#[derive(Clone, Copy, Debug, PartialEq, Eq, Structural)]
pub enum Player {
    Red,
    Blue,
}

/// The kind a piece carries into combat.
#[derive(Clone, Copy, Debug, PartialEq, Eq, Structural)]
pub enum RPS {
    Rock,
    Paper,
    Scissors,
}

/// How an attack ended, seen from the attacker.
#[derive(Clone, Copy, Debug, PartialEq, Eq, Structural)]
pub enum Outcome {
    Win,
    Lose,
    Draw,
}

impl Player {
    /// The other side.
    pub open spec fn spec_next(self) -> Player {
        match self {
            Player::Red => Player::Blue,
            Player::Blue => Player::Red,
        }
    }

    /// The side that moves after this one.
    pub fn next(&self) -> (other: Player)
        ensures
            other == self.spec_next(),
    {
        match *self {
            Player::Red => Player::Blue,
            Player::Blue => Player::Red,
        }
    }

    /// A fresh piece of this player, of the given kind.
    pub fn unit(&self, kind: RPS) -> (unit: GeneralUnit)
        ensures
            unit == (GeneralUnit { owner: *self, kind, visible: false }),
    {
        GeneralUnit::new(kind, *self)
    }

    /// A fresh piece of this player, of a kind left to chance.
    pub fn random_unit(&self) -> (unit: GeneralUnit)
        ensures
            unit.owner == *self,
            !unit.visible,
    {
        self.unit(RPS::random())
    }
}

impl RPS {
    /// The dominance relation: `a` beats `b`.
    pub open spec fn beats(self, other: RPS) -> bool {
        ||| self == RPS::Rock && other == RPS::Scissors
        ||| self == RPS::Scissors && other == RPS::Paper
        ||| self == RPS::Paper && other == RPS::Rock
    }

    /// The outcome of `self` attacking `opponent`.
    pub open spec fn spec_attack(self, opponent: RPS) -> Outcome {
        if self == opponent {
            Outcome::Draw
        } else if self.beats(opponent) {
            Outcome::Win
        } else {
            Outcome::Lose
        }
    }

    /// The kind that stands for the number `n`: the kinds in the order rock,
    /// paper, scissors, by the remainder of `n` on division by three.
    pub open spec fn spec_pick(n: nat) -> RPS {
        if n % 3 == 0 {
            RPS::Rock
        } else if n % 3 == 1 {
            RPS::Paper
        } else {
            RPS::Scissors
        }
    }

    /// The kind that stands for the number `n`.
    pub fn pick(n: usize) -> (kind: RPS)
        ensures
            kind == RPS::spec_pick(n as nat),
    {
        let r: usize = n % 3;
        if r == 0 {
            RPS::Rock
        } else if r == 1 {
            RPS::Paper
        } else {
            RPS::Scissors
        }
    }

    /// A kind left to chance: the kind that stands for a number drawn from the
    /// thread-local random generator.
    pub fn random() -> RPS {
        RPS::pick(random_index())
    }

    /// Resolves an attack of `self` on `opponent`.
    pub fn attack(&self, opponent: RPS) -> (outcome: Outcome)
        ensures
            outcome == self.spec_attack(opponent),
    {
        match (*self, opponent) {
            (RPS::Paper, RPS::Rock) | (RPS::Rock, RPS::Scissors) | (RPS::Scissors, RPS::Paper) => {
                Outcome::Win
            },
            (RPS::Rock, RPS::Paper) | (RPS::Scissors, RPS::Rock) | (RPS::Paper, RPS::Scissors) => {
                Outcome::Lose
            },
            _ => Outcome::Draw,
        }
    }
}

} // verus!
