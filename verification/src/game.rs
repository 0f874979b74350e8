//! The turn cascade: a click marks a cell for the player, the win
//! evaluator runs, the AI answers on a random empty cell, and the
//! evaluator runs again; a win ends the game.

use crate::board::{Board, Cell};
use crate::win::{check_win, spec_win};
use rand::Rng;
use vstd::prelude::*;

verus! {

/// Who won a finished game.
#[derive(Clone, Copy, Debug, PartialEq, Eq, Structural)]
pub enum Winner {
    Player,
    Ai,
}

/// Where a session stands. Phases move only forward: a game loads, is
/// played, and ends.
#[derive(Clone, Copy, Debug, PartialEq, Eq, Structural)]
pub enum GamePhase {
    Loading,
    Playing,
    Ended(Winner),
}

/// One game session: the board and the phase it is in.
pub struct Game {
    pub board: Board,
    pub phase: GamePhase,
}

/// Relies on rand::Rng::gen_range of rand, called on a thread_rng over
/// the range 0..n: the sample lies in the range, and the range is not
/// empty, so the call does not panic. Which value comes back is left
/// open.
#[verifier::external_body]
fn random_below(n: usize) -> (r: usize)
    requires
        n >= 1,
    ensures
        r < n,
{
    rand::thread_rng().gen_range(0..n)
}

/// Mark a uniformly drawn empty cell with the AI's mark: gather the
/// cells still empty and draw one of them. The cell that is marked was
/// empty before, and no other cell changes.
pub fn ai_move(b: &mut Board) -> (rc: (usize, usize))
    requires
        old(b).wf(),
        exists|i: int| 0 <= i < 9 && old(b)@[i] == Cell::Empty,
    ensures
        final(b).wf(),
        rc.0 < 3,
        rc.1 < 3,
        old(b).spec_cell(rc.0 as int, rc.1 as int) == Cell::Empty,
        final(b)@ == old(b)@.update(rc.0 * 3 + rc.1, Cell::AiMark),
{
    let mut empties: Vec<(usize, usize)> = Vec::new();
    let mut row: usize = 0;
    while row < 3
        invariant
            b.wf(),
            b@ == old(b)@,
            row <= 3,
            forall|j: int|
                0 <= j < empties@.len() ==> {
                    &&& (#[trigger] empties@[j]).0 < 3
                    &&& empties@[j].1 < 3
                    &&& b@[empties@[j].0 * 3 + empties@[j].1] == Cell::Empty
                },
            forall|idx: int|
                0 <= idx < 3 * row && b@[idx] == Cell::Empty ==> exists|j: int|
                    0 <= j < empties@.len() && (#[trigger] empties@[j]).0 * 3 + empties@[j].1
                        == idx,
        decreases 3 - row,
    {
        let mut col: usize = 0;
        while col < 3
            invariant
                b.wf(),
                b@ == old(b)@,
                row < 3,
                col <= 3,
                forall|j: int|
                    0 <= j < empties@.len() ==> {
                        &&& (#[trigger] empties@[j]).0 < 3
                        &&& empties@[j].1 < 3
                        &&& b@[empties@[j].0 * 3 + empties@[j].1] == Cell::Empty
                    },
                forall|idx: int|
                    0 <= idx < 3 * row + col && b@[idx] == Cell::Empty ==> exists|j: int|
                        0 <= j < empties@.len() && (#[trigger] empties@[j]).0 * 3 + empties@[j].1
                            == idx,
            decreases 3 - col,
        {
            if b.get(row, col) == Cell::Empty {
                let ghost before = empties@;
                empties.push((row, col));
                proof {
                    assert forall|idx: int|
                        0 <= idx < 3 * row + col + 1 && b@[idx]
                            == Cell::Empty implies exists|j: int|
                        0 <= j < empties@.len() && (#[trigger] empties@[j]).0 * 3 + empties@[j].1
                            == idx by {
                        if idx == 3 * row + col {
                            let n = before.len() as int;
                            assert(empties@[n] == (row, col));
                            assert(empties@[n].0 * 3 + empties@[n].1 == idx);
                        } else {
                            let j0 = choose|j: int|
                                0 <= j < before.len() && (#[trigger] before[j]).0 * 3 + before[j].1
                                    == idx;
                            assert(empties@[j0] == before[j0]);
                            assert(empties@[j0].0 * 3 + empties@[j0].1 == idx);
                        }
                    }
                }
            }
            col = col + 1;
        }
        row = row + 1;
    }
    proof {
        let w = choose|i: int| 0 <= i < 9 && old(b)@[i] == Cell::Empty;
        assert(exists|j: int|
            0 <= j < empties@.len() && (#[trigger] empties@[j]).0 * 3 + empties@[j].1 == w);
    }
    let k = random_below(empties.len());
    let (r, c) = empties[k];
    b.set(r, c, Cell::AiMark);
    (r, c)
}

impl Game {
    /// The session invariant: a well-formed board.
    pub open spec fn wf(&self) -> bool {
        self.board.wf()
    }

    /// A fresh session: an empty board, still loading.
    pub fn new() -> (g: Game)
        ensures
            g.wf(),
            g.phase == GamePhase::Loading,
            forall|i: int| 0 <= i < 9 ==> g.board@[i] == Cell::Empty,
    {
        Game { board: Board::new(), phase: GamePhase::Loading }
    }

    /// Loading is over: play begins. The board is untouched.
    pub fn begin(&mut self)
        requires
            old(self).wf(),
            old(self).phase == GamePhase::Loading,
        ensures
            final(self).wf(),
            final(self).phase == GamePhase::Playing,
            final(self).board@ == old(self).board@,
    {
        self.phase = GamePhase::Playing;
    }

    /// Would a click on (row, col) complete a line for the player? The
    /// board and the phase are left exactly as they were; the answer
    /// speaks of the board with the player's mark put at (row, col).
    /// A caller can ask this before `process_click` to know whether the
    /// AI will be asked to move.
    pub fn click_wins_for_player(&mut self, row: usize, col: usize) -> (r: bool)
        requires
            old(self).wf(),
            row < 3,
            col < 3,
        ensures
            final(self).wf(),
            final(self).board@ == old(self).board@,
            final(self).phase == old(self).phase,
            r == spec_win(
                old(self).board@.update(row * 3 + col, Cell::PlayerMark),
                Cell::PlayerMark,
            ),
    {
        let saved = self.board.get(row, col);
        self.board.set(row, col, Cell::PlayerMark);
        let won = check_win(&self.board, Cell::PlayerMark);
        self.board.set(row, col, saved);
        proof {
            assert(self.board@ =~= old(self).board@);
        }
        won
    }

    /// Process one click on cell (row, col), driving the whole cascade.
    ///
    /// Outside the playing phase, or on a cell already marked, the click
    /// is dropped and nothing changes. On an empty cell the player's mark
    /// is placed; a player win ends the game at once and the AI does not
    /// move. Otherwise the AI marks one empty cell of its own choosing,
    /// and an AI win ends the game; failing that, play goes on.
    ///
    /// When the player's mark does not win, the AI must find an empty
    /// cell; the precondition asks for one, for on a board that the click
    /// fills without a winner the AI would have nothing left to mark.
    pub fn process_click(&mut self, row: usize, col: usize)
        requires
            old(self).wf(),
            row < 3,
            col < 3,
            (old(self).phase == GamePhase::Playing && old(self).board@[row * 3 + col]
                == Cell::Empty && !spec_win(
                old(self).board@.update(row * 3 + col, Cell::PlayerMark),
                Cell::PlayerMark,
            )) ==> exists|i: int|
                0 <= i < 9 && i != row * 3 + col && old(self).board@[i] == Cell::Empty,
        ensures
            final(self).wf(),
            (old(self).phase != GamePhase::Playing || old(self).board@[row * 3 + col]
                != Cell::Empty) ==> (final(self).board@ == old(self).board@ && final(self).phase
                == old(self).phase),
            (old(self).phase == GamePhase::Playing && old(self).board@[row * 3 + col]
                == Cell::Empty) ==> ({
                let after_player = old(self).board@.update(row * 3 + col, Cell::PlayerMark);
                if spec_win(after_player, Cell::PlayerMark) {
                    final(self).board@ == after_player && final(self).phase == GamePhase::Ended(
                        Winner::Player,
                    )
                } else {
                    exists|i: int|
                        {
                            &&& 0 <= i < 9
                            &&& after_player[i] == Cell::Empty
                            &&& final(self).board@ == after_player.update(i, Cell::AiMark)
                            &&& final(self).phase == (if spec_win(
                                after_player.update(i, Cell::AiMark),
                                Cell::AiMark,
                            ) {
                                GamePhase::Ended(Winner::Ai)
                            } else {
                                GamePhase::Playing
                            })
                        }
                }
            }),
    {
        if self.phase != GamePhase::Playing {
            return ;
        }
        if self.board.get(row, col) != Cell::Empty {
            return ;
        }
        self.board.set(row, col, Cell::PlayerMark);
        if check_win(&self.board, Cell::PlayerMark) {
            self.phase = GamePhase::Ended(Winner::Player);
            return ;
        }
        proof {
            let w = choose|i: int|
                0 <= i < 9 && i != row * 3 + col && old(self).board@[i] == Cell::Empty;
            assert(self.board@[w] == Cell::Empty);
        }
        let rc = ai_move(&mut self.board);
        if check_win(&self.board, Cell::AiMark) {
            self.phase = GamePhase::Ended(Winner::Ai);
        }
        proof {
            let after_player = old(self).board@.update(row * 3 + col, Cell::PlayerMark);
            let i = rc.0 * 3 + rc.1 as int;
            assert(0 <= i < 9 && after_player[i] == Cell::Empty && self.board@
                == after_player.update(i, Cell::AiMark));
        }
    }
}

} // verus!
