//! Neighbourhoods: which positions around a cell count as its neighbours in
//! a grid with hard edges.

use vstd::prelude::*;

verus! {

/// Which cells around a cell count as its neighbours.
///
/// `Moore` takes the eight surrounding cells, `VonNeumann` only the four that
/// share an edge with the cell.
#[derive(Debug, PartialEq, Eq, PartialOrd, Ord, Clone, Copy, Structural)]
pub enum Neighborhood {
    Moore,
    VonNeumann,
}

impl Default for Neighborhood {
    fn default() -> (kind: Neighborhood)
        ensures
            kind == Neighborhood::Moore,
    {
        Neighborhood::Moore
    }
}

impl Neighborhood {
    /// Whether the position at offset (`dr`, `dc`) from a cell is one of its
    /// neighbours.
    pub open spec fn includes(self, dr: int, dc: int) -> bool {
        &&& -1 <= dr <= 1
        &&& -1 <= dc <= 1
        &&& !(dr == 0 && dc == 0)
        &&& self is VonNeumann ==> dr == 0 || dc == 0
    }
}

/// Whether (`nr`, `nc`) is a neighbour of (`r`, `c`) in a grid of `row_count`
/// by `col_count` cells: it lies inside the grid, at an offset that `kind`
/// includes. Nothing outside the grid is a neighbour, and nothing stands in
/// for it.
pub open spec fn is_neighbor(
    kind: Neighborhood,
    row_count: int,
    col_count: int,
    r: int,
    c: int,
    nr: int,
    nc: int,
) -> bool {
    &&& 0 <= nr < row_count
    &&& 0 <= nc < col_count
    &&& kind.includes(nr - r, nc - c)
}

/// Row-major order on positions: by row first, then by column.
pub open spec fn precedes(a: (usize, usize), b: (usize, usize)) -> bool {
    a.0 < b.0 || (a.0 == b.0 && a.1 < b.1)
}

/// `found` lists the neighbours of (`r`, `c`), each once, in row-major order.
pub open spec fn samples(
    found: Seq<(usize, usize)>,
    kind: Neighborhood,
    row_count: int,
    col_count: int,
    r: int,
    c: int,
) -> bool {
    &&& forall|nr: usize, nc: usize| #[trigger]
        found.contains((nr, nc)) <==> is_neighbor(
            kind,
            row_count,
            col_count,
            r,
            c,
            nr as int,
            nc as int,
        )
    &&& forall|i: int, j: int|
        0 <= i < j < found.len() ==> precedes(#[trigger] found[i], #[trigger] found[j])
}

impl Neighborhood {
    /// The positions of the neighbours of (`row`, `col`) in a grid of
    /// `row_count` by `col_count` cells, in row-major order.
    ///
    /// The grid has hard edges: a cell on an edge or in a corner has fewer
    /// neighbours, and no position is listed in place of one that falls
    /// outside.
    pub fn neighbors(self, row: usize, col: usize, row_count: usize, col_count: usize) -> (found:
        Vec<(usize, usize)>)
        ensures
            samples(found@, self, row_count as int, col_count as int, row as int, col as int),
    {
        let mut found: Vec<(usize, usize)> = Vec::new();
        if row_count == 0 || col_count == 0 {
            return found;
        }
        let first_row = row.saturating_sub(1);
        let next_row = row.saturating_add(1);
        let last_row = if next_row < row_count - 1 {
            next_row
        } else {
            row_count - 1
        };
        let first_col = col.saturating_sub(1);
        let next_col = col.saturating_add(1);
        let last_col = if next_col < col_count - 1 {
            next_col
        } else {
            col_count - 1
        };
        let mut r = first_row;
        while r <= last_row
            invariant
                first_row <= r,
                first_row <= last_row ==> r <= last_row + 1,
                first_row == if row == 0 {
                    0int
                } else {
                    row - 1
                },
                first_col == if col == 0 {
                    0int
                } else {
                    col - 1
                },
                last_row == if row + 1 < row_count - 1 {
                    row + 1
                } else {
                    row_count - 1
                },
                last_col == if col + 1 < col_count - 1 {
                    col + 1
                } else {
                    col_count - 1
                },
                row_count > 0,
                col_count > 0,
                forall|nr: usize, nc: usize| #[trigger]
                    found@.contains((nr, nc)) <==> nr < r && is_neighbor(
                        self,
                        row_count as int,
                        col_count as int,
                        row as int,
                        col as int,
                        nr as int,
                        nc as int,
                    ),
                forall|i: int, j: int|
                    0 <= i < j < found@.len() ==> precedes(
                        #[trigger] found@[i],
                        #[trigger] found@[j],
                    ),
                forall|i: int| 0 <= i < found@.len() ==> (#[trigger] found@[i]).0 < r,
            decreases last_row + 1 - r,
        {
            let mut c = first_col;
            while c <= last_col
                invariant
                    first_row <= r <= last_row,
                    first_col <= c,
                    first_col <= last_col ==> c <= last_col + 1,
                    first_row == if row == 0 {
                        0int
                    } else {
                        row - 1
                    },
                    first_col == if col == 0 {
                        0int
                    } else {
                        col - 1
                    },
                    last_row == if row + 1 < row_count - 1 {
                        row + 1
                    } else {
                        row_count - 1
                    },
                    last_col == if col + 1 < col_count - 1 {
                        col + 1
                    } else {
                        col_count - 1
                    },
                    row_count > 0,
                    col_count > 0,
                    forall|nr: usize, nc: usize| #[trigger]
                        found@.contains((nr, nc)) <==> (nr < r || (nr == r && nc < c))
                            && is_neighbor(
                            self,
                            row_count as int,
                            col_count as int,
                            row as int,
                            col as int,
                            nr as int,
                            nc as int,
                        ),
                    forall|i: int, j: int|
                        0 <= i < j < found@.len() ==> precedes(
                            #[trigger] found@[i],
                            #[trigger] found@[j],
                        ),
                    forall|i: int| 0 <= i < found@.len() ==> precedes(#[trigger] found@[i], (r, c)),
                decreases last_col + 1 - c,
            {
                let own = r == row && c == col;
                let diagonal = r != row && c != col;
                let skipped = own || (diagonal && matches!(self, Neighborhood::VonNeumann));
                if !skipped {
                    let ghost before = found@;
                    found.push((r, c));
                    proof {
                        assert forall|nr: usize, nc: usize| #[trigger]
                            found@.contains((nr, nc)) <==> (before.contains((nr, nc)) || (nr, nc)
                                == (r, c)) by {
                            vstd::seq_lib::lemma_seq_contains_after_push(before, (r, c), (nr, nc));
                        }
                    }
                }
                c = c + 1;
            }
            r = r + 1;
        }
        found
    }
}

} // verus!
