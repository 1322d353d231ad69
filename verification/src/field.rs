//! The board: a fixed-size grid of cells, each empty or holding one piece.

use vstd::prelude::*;
use crate::pieces::{Player, RPS};
use crate::unit::{GeneralUnit, PovUnit, Unit};

verus! {

/// The mathematical board: its dimensions and what each cell holds. A cell is
/// addressed by column `x` and row `y`.
#[verifier::ext_equal]
pub struct Board<K> {
    pub width: nat,
    pub height: nat,
    pub cells: Map<(int, int), Option<K>>,
}

impl<K> Board<K> {
    /// Whether `(x, y)` is a cell of the grid.
    pub open spec fn contains(self, x: int, y: int) -> bool {
        0 <= x < self.width && 0 <= y < self.height
    }

    /// The cells that are recorded are exactly those of the grid.
    pub open spec fn wf(self) -> bool {
        forall|x: int, y: int| #[trigger] self.cells.dom().contains((x, y)) <==> self.contains(x, y)
    }

    /// What the cell `(x, y)` holds.
    pub open spec fn at(self, x: int, y: int) -> Option<K> {
        self.cells[(x, y)]
    }

    /// The board with the cell `(x, y)` replaced.
    pub open spec fn put(self, x: int, y: int, cell: Option<K>) -> Board<K> {
        Board { width: self.width, height: self.height, cells: self.cells.insert((x, y), cell) }
    }

    /// The board with every cell of row `y` replaced by `cell`.
    pub open spec fn with_row(self, y: int, cell: Option<K>) -> Board<K> {
        Board {
            width: self.width,
            height: self.height,
            cells: Map::new(
                |p: (int, int)| self.contains(p.0, p.1),
                |p: (int, int)| if p.1 == y { cell } else { self.at(p.0, p.1) },
            ),
        }
    }

    /// The board of the given dimensions with every cell empty.
    pub open spec fn empty(width: nat, height: nat) -> Board<K> {
        Board {
            width,
            height,
            cells: Map::new(
                |p: (int, int)| 0 <= p.0 < width && 0 <= p.1 < height,
                |p: (int, int)| None,
            ),
        }
    }
}

impl<K: Unit> Board<K> {
    /// Whether `player` has at least one piece on the board.
    pub open spec fn has_unit_of(self, player: Player) -> bool {
        exists|x: int, y: int| #[trigger] self.holds_unit_of(x, y, player)
    }

    /// Whether `(x, y)` is a cell of the grid that holds a piece of `player`.
    pub open spec fn holds_unit_of(self, x: int, y: int, player: Player) -> bool {
        &&& self.contains(x, y)
        &&& self.at(x, y) matches Some(unit)
        &&& unit.spec_owner() == player
    }
}

impl Board<GeneralUnit> {
    /// What `viewer` sees of the board: every cell as it is, except that an
    /// opposing piece not yet revealed shows its owner only.
    pub open spec fn seen_by(self, viewer: Player) -> Board<PovUnit> {
        Board {
            width: self.width,
            height: self.height,
            cells: Map::new(
                |p: (int, int)| self.contains(p.0, p.1),
                |p: (int, int)| mask(self.at(p.0, p.1), viewer),
            ),
        }
    }

    /// The starting board: row `i` from Red's edge holds Red pieces of kind
    /// `red[i]`, row `i` from Blue's edge (the highest rows) holds Blue pieces
    /// of kind `blue[i]`, none of them revealed, and every other cell is
    /// empty. Meant for line-ups that do not meet: `red.len() + blue.len() <=
    /// height`.
    pub open spec fn lineup(width: nat, height: nat, red: Seq<RPS>, blue: Seq<RPS>) -> Board<
        GeneralUnit,
    > {
        Board {
            width,
            height,
            cells: Map::new(
                |p: (int, int)| 0 <= p.0 < width && 0 <= p.1 < height,
                |p: (int, int)|
                    if p.1 < red.len() {
                        Some(GeneralUnit { owner: Player::Red, kind: red[p.1], visible: false })
                    } else if p.1 >= height - blue.len() {
                        Some(
                            GeneralUnit {
                                owner: Player::Blue,
                                kind: blue[height - 1 - p.1],
                                visible: false,
                            },
                        )
                    } else {
                        None
                    },
            ),
        }
    }
}

/// What `viewer` sees of a cell.
pub open spec fn mask(cell: Option<GeneralUnit>, viewer: Player) -> Option<PovUnit> {
    match cell {
        Some(unit) => Some(unit.spec_seen_by(viewer)),
        None => None,
    }
}

/// Position of the cell `(x, y)` in row-major storage of rows `width` wide.
spec fn slot(width: int, x: int, y: int) -> int {
    y * width + x
}

proof fn lemma_slot_in_range(width: int, height: int, x: int, y: int)
    requires
        0 <= x < width,
        0 <= y < height,
    ensures
        0 <= y * width <= slot(width, x, y) < width * height,
{
    assert(0 <= y * width) by (nonlinear_arith)
        requires 0 <= y, 0 <= width;
    assert((y + 1) * width <= height * width) by (nonlinear_arith)
        requires y + 1 <= height, 0 <= width;
    assert((y + 1) * width == y * width + width) by (nonlinear_arith);
    assert(height * width == width * height) by (nonlinear_arith);
}

proof fn lemma_slot_injective(width: int, x1: int, y1: int, x2: int, y2: int)
    requires
        0 <= x1 < width,
        0 <= x2 < width,
        slot(width, x1, y1) == slot(width, x2, y2),
    ensures
        x1 == x2,
        y1 == y2,
{
    assert((y1 - y2) * width == y1 * width - y2 * width) by (nonlinear_arith);
    if y1 > y2 {
        assert((y1 - y2) * width >= width) by (nonlinear_arith)
            requires y1 - y2 >= 1, width > 0;
    } else if y1 < y2 {
        assert((y1 - y2) * width <= -width) by (nonlinear_arith)
            requires y1 - y2 <= -1, width > 0;
    }
}

/// The board in memory.
#[derive(Debug)]
pub struct Field<K> {
    width: usize,
    height: usize,
    cells: Vec<Option<K>>,
}

impl<K> View for Field<K> {
    type V = Board<K>;

    closed spec fn view(&self) -> Board<K> {
        Board {
            width: self.width as nat,
            height: self.height as nat,
            cells: Map::new(
                |p: (int, int)| 0 <= p.0 < self.width && 0 <= p.1 < self.height,
                |p: (int, int)| self.cells@[slot(self.width as int, p.0, p.1)],
            ),
        }
    }
}

impl<K: Copy> Clone for Field<K> {
    fn clone(&self) -> (copy: Self)
        ensures
            copy@ == self@,
    {
        proof {
            use_type_invariant(self);
        }
        let total = self.cells.len();
        let mut cells: Vec<Option<K>> = Vec::new();
        let mut i: usize = 0;
        while i < total
            invariant
                i <= total,
                total == self.cells@.len(),
                cells@.len() == i,
                forall|j: int| 0 <= j < i ==> cells@[j] == self.cells@[j],
            decreases total - i,
        {
            cells.push(self.cells[i]);
            i += 1;
        }
        let copy = Field { width: self.width, height: self.height, cells };
        proof {
            assert forall|p: (int, int)| self@.contains(p.0, p.1) implies #[trigger] copy@.cells[p]
                == self@.cells[p] by {
                lemma_slot_in_range(self.width as int, self.height as int, p.0, p.1);
            }
            assert(copy@.cells =~= self@.cells);
        }
        copy
    }
}

impl<K> Field<K> {
    #[verifier::type_invariant]
    spec fn inv(self) -> bool {
        self.cells.len() == self.width * self.height
    }

    /// The view of a field always records exactly the cells of its grid.
    pub proof fn lemma_view_wf(self)
        ensures
            self@.wf(),
    {
    }

    /// A field of the given dimensions with every cell empty, where that many
    /// cells can be addressed.
    pub fn empty(width: usize, height: usize) -> (field: Option<Field<K>>)
        ensures
            field is Some <==> width * height <= usize::MAX,
            field matches Some(f) ==> f@ == Board::<K>::empty(width as nat, height as nat),
    {
        let total = match width.checked_mul(height) {
            Some(total) => total,
            None => {
                return None;
            },
        };
        let mut cells: Vec<Option<K>> = Vec::new();
        let mut i: usize = 0;
        while i < total
            invariant
                i <= total,
                cells@.len() == i,
                forall|j: int| 0 <= j < i ==> cells@[j] is None,
            decreases total - i,
        {
            cells.push(None);
            i += 1;
        }
        let field = Field { width, height, cells };
        proof {
            assert forall|p: (int, int)| 0 <= p.0 < width && 0 <= p.1 < height implies
                field.cells@[slot(width as int, p.0, p.1)] == None::<K> by {
                lemma_slot_in_range(width as int, height as int, p.0, p.1);
            }
            assert(field@.cells =~= Board::<K>::empty(width as nat, height as nat).cells);
        }
        Some(field)
    }

    /// The number of columns.
    pub fn width(&self) -> (width: usize)
        ensures
            width == self@.width,
    {
        self.width
    }

    /// The number of rows.
    pub fn height(&self) -> (height: usize)
        ensures
            height == self@.height,
    {
        self.height
    }

    /// What the cell `(x, y)` holds.
    pub fn get(&self, x: usize, y: usize) -> (cell: Option<K>)
        where K: Copy
        requires
            self@.contains(x as int, y as int),
        ensures
            cell == self@.at(x as int, y as int),
    {
        proof {
            use_type_invariant(self);
            lemma_slot_in_range(self.width as int, self.height as int, x as int, y as int);
        }
        self.cells[y * self.width + x]
    }

    /// Replaces what the cell `(x, y)` holds.
    pub fn set(&mut self, x: usize, y: usize, cell: Option<K>)
        requires
            old(self)@.contains(x as int, y as int),
        ensures
            final(self)@ == old(self)@.put(x as int, y as int, cell),
    {
        proof {
            use_type_invariant(&*self);
            lemma_slot_in_range(self.width as int, self.height as int, x as int, y as int);
        }
        let index = y * self.width + x;
        self.cells[index] = cell;
        proof {
            let w = self.width as int;
            assert forall|p: (int, int)| 0 <= p.0 < self.width && 0 <= p.1 < self.height implies
                #[trigger] self@.cells[p] == old(self)@.put(x as int, y as int, cell).cells[p] by {
                if p != (x as int, y as int) {
                    if slot(w, p.0, p.1) == slot(w, x as int, y as int) {
                        lemma_slot_injective(w, p.0, p.1, x as int, y as int);
                    }
                    lemma_slot_in_range(w, self.height as int, p.0, p.1);
                }
            }
            assert(self@.cells =~= old(self)@.put(x as int, y as int, cell).cells);
        }
    }

    /// Replaces what every cell of row `y` holds by `cell`.
    pub fn fill_row(&mut self, y: usize, cell: Option<K>)
        where K: Copy
        requires
            y < old(self)@.height,
        ensures
            final(self)@ == old(self)@.with_row(y as int, cell),
    {
        let width = self.width();
        let mut x: usize = 0;
        while x < width
            invariant
                x <= width,
                width == self@.width,
                self@.width == old(self)@.width,
                self@.height == old(self)@.height,
                y < self@.height,
                forall|x2: int, y2: int|
                    self@.contains(x2, y2) ==> #[trigger] self@.at(x2, y2) == (if y2 == y && x2
                        < x {
                        cell
                    } else {
                        old(self)@.at(x2, y2)
                    }),
            decreases width - x,
        {
            let ghost before = self@;
            self.set(x, y, cell);
            proof {
                assert forall|x2: int, y2: int| self@.contains(x2, y2) implies #[trigger] self@.at(
                    x2,
                    y2,
                ) == (if y2 == y && x2 < x + 1 {
                    cell
                } else {
                    old(self)@.at(x2, y2)
                }) by {
                    if (x2, y2) != (x as int, y as int) {
                        assert(self@.at(x2, y2) == before.at(x2, y2));
                    }
                }
            }
            x += 1;
        }
        proof {
            let filled = old(self)@.with_row(y as int, cell);
            assert forall|p: (int, int)| self@.cells.dom().contains(p) implies #[trigger] self@.cells[p]
                == filled.cells[p] by {
                assert(self@.at(p.0, p.1) == filled.at(p.0, p.1));
            }
            assert(self@.cells =~= filled.cells);
        }
    }
}

/// The board as one player sees it.
#[derive(Debug)]
pub struct PovField {
    viewer: Player,
    field: Field<PovUnit>,
}

impl View for PovField {
    type V = Board<PovUnit>;

    closed spec fn view(&self) -> Board<PovUnit> {
        self.field@
    }
}

impl Clone for PovField {
    fn clone(&self) -> (copy: Self)
        ensures
            copy@ == self@,
            copy.spec_viewer() == self.spec_viewer(),
    {
        PovField { viewer: self.viewer, field: self.field.clone() }
    }
}

impl PovField {
    /// The player whose point of view this is.
    pub closed spec fn spec_viewer(&self) -> Player {
        self.viewer
    }

    /// What `viewer` sees of `field`.
    pub fn from(field: &Field<GeneralUnit>, viewer: Player) -> (pov: PovField)
        ensures
            pov@ == field@.seen_by(viewer),
            pov.spec_viewer() == viewer,
    {
        proof {
            use_type_invariant(field);
        }
        let total = field.cells.len();
        let mut cells: Vec<Option<PovUnit>> = Vec::new();
        let mut i: usize = 0;
        while i < total
            invariant
                i <= total,
                total == field.cells@.len(),
                cells@.len() == i,
                forall|j: int| 0 <= j < i ==> cells@[j] == mask(field.cells@[j], viewer),
            decreases total - i,
        {
            let cell = match field.cells[i] {
                Some(unit) => Some(unit.seen_by(viewer)),
                None => None,
            };
            cells.push(cell);
            i += 1;
        }
        let pov = PovField {
            viewer,
            field: Field { width: field.width, height: field.height, cells },
        };
        proof {
            assert forall|p: (int, int)| field@.contains(p.0, p.1) implies #[trigger] pov@.cells[p]
                == field@.seen_by(viewer).cells[p] by {
                lemma_slot_in_range(field.width as int, field.height as int, p.0, p.1);
            }
            assert(pov@.cells =~= field@.seen_by(viewer).cells);
        }
        pov
    }

    /// The player whose point of view this is.
    pub fn viewer(&self) -> (viewer: Player)
        ensures
            viewer == self.spec_viewer(),
    {
        self.viewer
    }

    /// The number of columns.
    pub fn width(&self) -> (width: usize)
        ensures
            width == self@.width,
    {
        self.field.width()
    }

    /// The number of rows.
    pub fn height(&self) -> (height: usize)
        ensures
            height == self@.height,
    {
        self.field.height()
    }

    /// What the viewer sees in the cell `(x, y)`.
    pub fn get(&self, x: usize, y: usize) -> (cell: Option<PovUnit>)
        requires
            self@.contains(x as int, y as int),
        ensures
            cell == self@.at(x as int, y as int),
    {
        self.field.get(x, y)
    }
}

} // verus!
