//! Pieces: what a cell of the board can hold.

use vstd::prelude::*;
use crate::pieces::{Outcome, Player, RPS};

verus! {

/// What the engine needs to know of a piece type: who owns a piece, and how an
/// attack of one piece on another ends, where the piece type can tell.
pub trait Unit: Copy {
    /// The owner of the piece.
    spec fn spec_owner(&self) -> Player;

    /// The outcome of `self` attacking `defender`; `None` where it cannot be
    /// classified.
    spec fn spec_attack(&self, defender: &Self) -> Option<Outcome>;

    /// The owner of the piece.
    fn owner(&self) -> (player: Player)
        ensures
            player == self.spec_owner(),
    ;

    /// Resolves an attack of `self` on `defender`.
    fn attack(&self, defender: &Self) -> (outcome: Option<Outcome>)
        ensures
            outcome == self.spec_attack(defender),
    ;
}

/// A piece as the board holds it: its owner, its kind, and whether an
/// engagement has revealed the kind to the opponent.
#[derive(Clone, Copy, Debug, PartialEq, Eq, Structural)]
pub struct GeneralUnit {
    pub owner: Player,
    pub kind: RPS,
    pub visible: bool,
}

impl GeneralUnit {
    /// A fresh piece, not yet revealed.
    pub fn new(kind: RPS, owner: Player) -> (unit: GeneralUnit)
        ensures
            unit == (GeneralUnit { owner, kind, visible: false }),
    {
        GeneralUnit { owner, kind, visible: false }
    }

    /// The same piece after an engagement has revealed it.
    pub open spec fn spec_revealed(self) -> GeneralUnit {
        GeneralUnit { owner: self.owner, kind: self.kind, visible: true }
    }

    /// The same piece with its kind revealed.
    pub fn revealed(&self) -> (unit: GeneralUnit)
        ensures
            unit == self.spec_revealed(),
    {
        GeneralUnit { owner: self.owner, kind: self.kind, visible: true }
    }

    /// What `viewer` sees of this piece: all of it, unless it belongs to the
    /// opponent and has not been revealed, in which case only the owner.
    pub open spec fn spec_seen_by(self, viewer: Player) -> PovUnit {
        if self.owner != viewer && !self.visible {
            PovUnit::Hidden { owner: self.owner }
        } else {
            PovUnit::Known(self)
        }
    }

    /// What `viewer` sees of this piece.
    pub fn seen_by(&self, viewer: Player) -> (seen: PovUnit)
        ensures
            seen == self.spec_seen_by(viewer),
    {
        if self.owner != viewer && !self.visible {
            PovUnit::Hidden { owner: self.owner }
        } else {
            PovUnit::Known(*self)
        }
    }
}

impl Unit for GeneralUnit {
    open spec fn spec_owner(&self) -> Player {
        self.owner
    }

    open spec fn spec_attack(&self, defender: &Self) -> Option<Outcome> {
        Some(self.kind.spec_attack(defender.kind))
    }

    fn owner(&self) -> (player: Player) {
        self.owner
    }

    fn attack(&self, defender: &Self) -> (outcome: Option<Outcome>) {
        Some(self.kind.attack(defender.kind))
    }
}

/// A piece as one player sees it.
#[derive(Clone, Copy, Debug, PartialEq, Eq, Structural)]
pub enum PovUnit {
    /// The viewer knows the whole piece.
    Known(GeneralUnit),
    /// An opposing piece whose kind has not been revealed.
    Hidden { owner: Player },
}

impl Unit for PovUnit {
    open spec fn spec_owner(&self) -> Player {
        match *self {
            PovUnit::Known(unit) => unit.owner,
            PovUnit::Hidden { owner } => owner,
        }
    }

    open spec fn spec_attack(&self, defender: &Self) -> Option<Outcome> {
        match (*self, *defender) {
            (PovUnit::Known(a), PovUnit::Known(d)) => Some(a.kind.spec_attack(d.kind)),
            _ => None,
        }
    }

    fn owner(&self) -> (player: Player) {
        match *self {
            PovUnit::Known(unit) => unit.owner,
            PovUnit::Hidden { owner } => owner,
        }
    }

    fn attack(&self, defender: &Self) -> (outcome: Option<Outcome>) {
        match (*self, *defender) {
            (PovUnit::Known(a), PovUnit::Known(d)) => Some(a.kind.attack(d.kind)),
            _ => None,
        }
    }
}

} // verus!
