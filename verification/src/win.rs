//! The win evaluator: does a mark hold a complete row, column or diagonal?

use crate::board::{Board, Cell};
use vstd::prelude::*;

verus! {

/// Row `r` holds mark `m` in all three of its cells.
pub open spec fn row_won(b: Seq<Cell>, m: Cell, r: int) -> bool {
    b[r * 3 + 0] == m && b[r * 3 + 1] == m && b[r * 3 + 2] == m
}

/// Column `c` holds mark `m` in all three of its cells.
pub open spec fn col_won(b: Seq<Cell>, m: Cell, c: int) -> bool {
    b[c] == m && b[c + 3] == m && b[c + 6] == m
}

/// The top-left to bottom-right diagonal holds mark `m` throughout: cells
/// (0, 0), (1, 1) and (2, 2).
pub open spec fn main_diag_won(b: Seq<Cell>, m: Cell) -> bool {
    b[0] == m && b[4] == m && b[8] == m
}

/// The bottom-left to top-right diagonal holds mark `m` throughout: cells
/// (2, 0), (1, 1) and (0, 2).
pub open spec fn anti_diag_won(b: Seq<Cell>, m: Cell) -> bool {
    b[6] == m && b[4] == m && b[2] == m
}

/// Mark `m` has some complete line: a row, a column or a diagonal.
pub open spec fn spec_win(b: Seq<Cell>, m: Cell) -> bool {
    (exists|r: int| 0 <= r < 3 && row_won(b, m, r))
        || (exists|c: int| 0 <= c < 3 && col_won(b, m, c))
        || main_diag_won(b, m)
        || anti_diag_won(b, m)
}

/// The eight lines of the board, numbered: rows 0 to 2, then columns 3 to
/// 5, then the two diagonals 6 and 7.
pub open spec fn line_won(b: Seq<Cell>, m: Cell, k: int) -> bool {
    if 0 <= k < 3 {
        row_won(b, m, k)
    } else if 3 <= k < 6 {
        col_won(b, m, k - 3)
    } else if k == 6 {
        main_diag_won(b, m)
    } else {
        anti_diag_won(b, m)
    }
}

/// The mark that plays against `m`.
pub open spec fn opposing(m: Cell) -> Cell {
    if m == Cell::PlayerMark {
        Cell::AiMark
    } else {
        Cell::PlayerMark
    }
}

/// A board with a complete line of one mark satisfies the win evaluator
/// for that mark; and as long as the opposing mark has no complete line of
/// its own, the evaluator rejects the opposing mark. (A board may hold a
/// complete line for each mark at once; on such a board the evaluator
/// accepts both, so the opposing side of the claim asks that no opposing
/// line is complete.)
pub proof fn lemma_completed_line_wins(b: Seq<Cell>, m: Cell, k: int)
    requires
        b.len() == 9,
        m != Cell::Empty,
        0 <= k < 8,
        line_won(b, m, k),
        forall|j: int| 0 <= j < 8 ==> !line_won(b, opposing(m), j),
    ensures
        spec_win(b, m),
        !spec_win(b, opposing(m)),
{
    assert(spec_win(b, m)) by {
        if 0 <= k < 3 {
            assert(row_won(b, m, k));
        } else if 3 <= k < 6 {
            assert(col_won(b, m, k - 3));
        }
    }
    assert(!spec_win(b, opposing(m))) by {
        let o = opposing(m);
        assert(forall|r: int| 0 <= r < 3 ==> !row_won(b, o, r)) by {
            assert forall|r: int| 0 <= r < 3 implies !row_won(b, o, r) by {
                assert(!line_won(b, o, r));
            }
        }
        assert(forall|c: int| 0 <= c < 3 ==> !col_won(b, o, c)) by {
            assert(forall|j: int| 3 <= j < 6 ==> !line_won(b, o, j));
            assert forall|c: int| 0 <= c < 3 implies !col_won(b, o, c) by {
                assert(!line_won(b, o, c + 3));
            }
        }
        assert(!main_diag_won(b, o)) by {
            assert(!line_won(b, o, 6));
        }
        assert(!anti_diag_won(b, o)) by {
            assert(!line_won(b, o, 7));
        }
    }
}

/// Scan the three rows, the three columns and both diagonals for three
/// cells equal to `m`, as the evaluator of the game does each turn.
pub fn check_win(b: &Board, m: Cell) -> (won: bool)
    requires
        b.wf(),
    ensures
        won == spec_win(b@, m),
{
    let mut win = false;

    let mut row: usize = 0;
    while row < 3
        invariant
            b.wf(),
            row <= 3,
            win == exists|r: int| 0 <= r < row && row_won(b@, m, r),
        decreases 3 - row,
    {
        let row_win = b.get(row, 0) == m && b.get(row, 1) == m && b.get(row, 2) == m;
        if row_win {
            assert(row_won(b@, m, row as int));
        }
        win = win || row_win;
        row = row + 1;
    }

    let mut col: usize = 0;
    while col < 3
        invariant
            b.wf(),
            col <= 3,
            win == ((exists|r: int| 0 <= r < 3 && row_won(b@, m, r)) || (exists|c: int|
                0 <= c < col && col_won(b@, m, c))),
        decreases 3 - col,
    {
        let col_win = b.get(0, col) == m && b.get(1, col) == m && b.get(2, col) == m;
        if col_win {
            assert(col_won(b@, m, col as int));
        }
        win = win || col_win;
        col = col + 1;
    }

    let diag_win_1 = b.get(0, 0) == m && b.get(1, 1) == m && b.get(2, 2) == m;
    let diag_win_2 = b.get(2, 0) == m && b.get(1, 1) == m && b.get(0, 2) == m;

    win || diag_win_1 || diag_win_2
}

} // verus!
