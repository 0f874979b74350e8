//! The 3x3 board: cells, their coordinates, and the board's invariant.

use vstd::prelude::*;

verus! {

/// What one board position holds.
#[derive(Clone, Copy, Debug, PartialEq, Eq, Structural)]
pub enum Cell {
    Empty,
    PlayerMark,
    AiMark,
}

/// A 3x3 grid of cells, stored row by row: position (row, col) lives at
/// index `row * 3 + col`.
pub struct Board {
    cells: Vec<Cell>,
}

impl View for Board {
    type V = Seq<Cell>;

    closed spec fn view(&self) -> Seq<Cell> {
        self.cells@
    }
}

impl Board {
    /// The board invariant: nine cells, one per position.
    pub open spec fn wf(&self) -> bool {
        self@.len() == 9
    }

    /// The cell at (row, col), as the contracts speak of it.
    pub open spec fn spec_cell(&self, row: int, col: int) -> Cell {
        self@[row * 3 + col]
    }

    /// A fresh board with every cell empty.
    pub fn new() -> (b: Board)
        ensures
            b.wf(),
            forall|i: int| 0 <= i < 9 ==> b@[i] == Cell::Empty,
    {
        let mut cells: Vec<Cell> = Vec::new();
        let mut i: usize = 0;
        while i < 9
            invariant
                i <= 9,
                cells@.len() == i,
                forall|j: int| 0 <= j < i ==> cells@[j] == Cell::Empty,
            decreases 9 - i,
        {
            cells.push(Cell::Empty);
            i = i + 1;
        }
        Board { cells }
    }

    /// Read the cell at (row, col).
    pub fn get(&self, row: usize, col: usize) -> (c: Cell)
        requires
            self.wf(),
            row < 3,
            col < 3,
        ensures
            c == self.spec_cell(row as int, col as int),
    {
        self.cells[row * 3 + col]
    }

    /// Write the cell at (row, col); every other cell keeps its value.
    pub fn set(&mut self, row: usize, col: usize, c: Cell)
        requires
            old(self).wf(),
            row < 3,
            col < 3,
        ensures
            final(self).wf(),
            final(self)@ == old(self)@.update(row * 3 + col, c),
    {
        self.cells.set(row * 3 + col, c);
    }
}

} // verus!
