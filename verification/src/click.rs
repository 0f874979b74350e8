//! The click resolver: map a pointer position in world coordinates to the
//! board cell whose clickable region contains it.
//!
//! Coordinates are whole world units. The host that reads the pointer and
//! the camera works in screen space and hands the resolver the already
//! transformed position, rounded to whole units.

use vstd::prelude::*;

verus! {

/// How far from the origin a region's center or half-extent may lie, so
/// that `center - half` and `center + half` stay well inside `i64`.
pub const MAX_COORD: i64 = 1_000_000_000;

/// An axis-aligned clickable rectangle standing for one board cell.
pub struct Region {
    pub center_x: i64,
    pub center_y: i64,
    pub half_x: i64,
    pub half_y: i64,
    pub row: usize,
    pub col: usize,
}

impl Region {
    /// Bounded geometry and a board position: what the resolver asks of
    /// every region it is handed.
    pub open spec fn wf(&self) -> bool {
        &&& -MAX_COORD <= self.center_x <= MAX_COORD
        &&& -MAX_COORD <= self.center_y <= MAX_COORD
        &&& 0 <= self.half_x <= MAX_COORD
        &&& 0 <= self.half_y <= MAX_COORD
        &&& self.row < 3
        &&& self.col < 3
    }

    /// The point (x, y) lies strictly inside the region: within the
    /// half-extent of the center on both axes.
    pub open spec fn contains(&self, x: int, y: int) -> bool {
        &&& self.center_x - self.half_x < x < self.center_x + self.half_x
        &&& self.center_y - self.half_y < y < self.center_y + self.half_y
    }
}

/// Find the first region that contains the point, and name its cell.
/// A pointer outside every region resolves to no cell at all.
pub fn resolve_click(regions: &Vec<Region>, x: i64, y: i64) -> (hit: Option<(usize, usize)>)
    requires
        forall|i: int| 0 <= i < regions@.len() ==> (#[trigger] regions@[i]).wf(),
    ensures
        match hit {
            Some(cell) => exists|i: int|
                {
                    &&& 0 <= i < regions@.len()
                    &&& (#[trigger] regions@[i]).contains(x as int, y as int)
                    &&& cell == (regions@[i].row, regions@[i].col)
                    &&& forall|j: int| 0 <= j < i ==> !(#[trigger] regions@[j]).contains(
                        x as int,
                        y as int,
                    )
                },
            None => forall|i: int|
                0 <= i < regions@.len() ==> !(#[trigger] regions@[i]).contains(
                    x as int,
                    y as int,
                ),
        },
{
    let mut i: usize = 0;
    while i < regions.len()
        invariant
            forall|k: int| 0 <= k < regions@.len() ==> (#[trigger] regions@[k]).wf(),
            i <= regions@.len(),
            forall|j: int| 0 <= j < i ==> !(#[trigger] regions@[j]).contains(x as int, y as int),
        decreases regions@.len() - i,
    {
        let r = &regions[i];
        if r.center_x - r.half_x < x && x < r.center_x + r.half_x && r.center_y - r.half_y < y
            && y < r.center_y + r.half_y {
            return Some((r.row, r.col));
        }
        i = i + 1;
    }
    None
}

/// A region of the standard board layout: the shape every entry of
/// `board_regions` has, with `k` its position in the row-by-row order.
pub open spec fn standard_region(reg: Region, k: int) -> bool {
    &&& reg.row == k / 3
    &&& reg.col == k % 3
    &&& reg.center_x == -200 + 200 * (k % 3)
    &&& reg.center_y == 200 - 200 * (k / 3)
    &&& reg.half_x == 100
    &&& reg.half_y == 100
}

/// In the standard board layout the regions are pairwise disjoint, so a
/// pointer position resolves to at most one cell: no point lies inside
/// two distinct regions.
pub proof fn lemma_board_regions_disjoint(a: Region, b: Region, ka: int, kb: int, x: int, y: int)
    requires
        0 <= ka < 9,
        0 <= kb < 9,
        ka != kb,
        standard_region(a, ka),
        standard_region(b, kb),
        a.contains(x, y),
    ensures
        !b.contains(x, y),
{
    assert(ka == 3 * (ka / 3) + ka % 3);
    assert(kb == 3 * (kb / 3) + kb % 3);
    if ka % 3 == kb % 3 {
        assert(ka / 3 != kb / 3);
    }
}

/// The standard board layout of the game: nine square regions of
/// half-extent 100, centered 200 units apart, row 0 at the top
/// (y = 200) and column 0 on the left (x = -200). Region `k` of the
/// result stands for the cell (k / 3, k % 3).
pub fn board_regions() -> (v: Vec<Region>)
    ensures
        v@.len() == 9,
        forall|k: int| 0 <= k < 9 ==> (#[trigger] v@[k]).wf() && standard_region(v@[k], k),
{
    let mut v: Vec<Region> = Vec::new();
    let mut row: usize = 0;
    while row < 3
        invariant
            row <= 3,
            v@.len() == 3 * row,
            forall|k: int|
                0 <= k < v@.len() ==> (#[trigger] v@[k]).wf() && standard_region(v@[k], k),
        decreases 3 - row,
    {
        let mut col: usize = 0;
        while col < 3
            invariant
                row < 3,
                col <= 3,
                v@.len() == 3 * row + col,
                forall|k: int|
                    0 <= k < v@.len() ==> (#[trigger] v@[k]).wf() && standard_region(v@[k], k),
            decreases 3 - col,
        {
            let cx: i64 = -200 + 200 * (col as i64);
            let cy: i64 = 200 - 200 * (row as i64);
            v.push(
                Region {
                    center_x: cx,
                    center_y: cy,
                    half_x: 100,
                    half_y: 100,
                    row,
                    col,
                },
            );
            col = col + 1;
        }
        row = row + 1;
    }
    v
}

} // verus!
