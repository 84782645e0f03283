//! Grids of cells, live-neighbour counts, and the generational step over a
//! whole grid.

use crate::cell::{Cell, DeathStyle};
use crate::neighborhood::{is_neighbor, precedes, samples, Neighborhood};
use crate::rules::{lemma_first_match_none, RuleSet, RuleSetView};
use vstd::prelude::*;

verus! {

/// Rows of cells, indexed by row and then by column, both from zero.
pub type Grid = Vec<Vec<Cell>>;

/// Mathematical content of a grid: its rows as sequences of cells.
pub open spec fn grid_view(grid: Grid) -> Seq<Seq<Cell>> {
    Seq::new(grid@.len(), |r: int| grid@[r]@)
}

/// Every row of `cells` has `col_count` cells, and there are `row_count` rows.
pub open spec fn rectangular(cells: Seq<Seq<Cell>>, row_count: int, col_count: int) -> bool {
    &&& cells.len() == row_count
    &&& forall|r: int| 0 <= r < cells.len() ==> (#[trigger] cells[r]).len() == col_count
}

/// Every dying cell of `cells` has generations left.
pub open spec fn all_valid(cells: Seq<Seq<Cell>>) -> bool {
    forall|r: int, c: int|
        0 <= r < cells.len() && 0 <= c < cells[r].len() ==> (#[trigger] cells[r][c]).valid()
}

/// No cell of `cells` is in a state other than `Dead`.
pub open spec fn all_dead(cells: Seq<Seq<Cell>>) -> bool {
    forall|r: int, c: int|
        0 <= r < cells.len() && 0 <= c < cells[r].len() ==> (#[trigger] cells[r][c]) is Dead
}

/// No cell of `cells` is in a state other than `Alive`.
pub open spec fn all_alive(cells: Seq<Seq<Cell>>) -> bool {
    forall|r: int, c: int|
        0 <= r < cells.len() && 0 <= c < cells[r].len() ==> (#[trigger] cells[r][c]) is Alive
}

/// No cell of `cells` is dying.
pub open spec fn none_dying(cells: Seq<Seq<Cell>>) -> bool {
    forall|r: int, c: int|
        0 <= r < cells.len() && 0 <= c < cells[r].len() ==> !((#[trigger] cells[r][c]) is Dying)
}

/// One if position (`r`, `c`) lies inside `cells` and holds a cell that
/// counts as alive, zero otherwise. Positions outside the grid hold nothing:
/// the edges are hard.
pub open spec fn alive_at(cells: Seq<Seq<Cell>>, r: int, c: int) -> int {
    if 0 <= r < cells.len() && 0 <= c < cells[r].len() && cells[r][c].counts_alive() {
        1
    } else {
        0
    }
}

/// What the position at offset (`dr`, `dc`) from (`r`, `c`) adds to the
/// live-neighbour count of (`r`, `c`).
pub open spec fn contribution(
    cells: Seq<Seq<Cell>>,
    kind: Neighborhood,
    r: int,
    c: int,
    dr: int,
    dc: int,
) -> int {
    if kind.includes(dr, dc) {
        alive_at(cells, r + dr, c + dc)
    } else {
        0
    }
}

/// Number of live neighbours of (`r`, `c`) in `cells` under `kind`.
pub open spec fn alive_neighbors(cells: Seq<Seq<Cell>>, kind: Neighborhood, r: int, c: int) -> int {
    contribution(cells, kind, r, c, -1, -1) + contribution(cells, kind, r, c, -1, 0)
        + contribution(cells, kind, r, c, -1, 1) + contribution(cells, kind, r, c, 0, -1)
        + contribution(cells, kind, r, c, 0, 1) + contribution(cells, kind, r, c, 1, -1)
        + contribution(cells, kind, r, c, 1, 0) + contribution(cells, kind, r, c, 1, 1)
}

/// The most live neighbours a cell can have under `kind`, given whether it
/// lies in the first or last row and whether in the first or last column.
pub open spec fn neighbor_limit(kind: Neighborhood, edge_row: bool, edge_col: bool) -> int {
    match kind {
        Neighborhood::Moore => if edge_row && edge_col {
            3
        } else if edge_row || edge_col {
            5
        } else {
            8
        },
        Neighborhood::VonNeumann => if edge_row && edge_col {
            2
        } else if edge_row || edge_col {
            3
        } else {
            4
        },
    }
}

/// Number of `positions` that hold a cell counting as alive.
pub open spec fn alive_among(cells: Seq<Seq<Cell>>, positions: Seq<(usize, usize)>) -> int
    decreases positions.len(),
{
    if positions.len() == 0 {
        0
    } else {
        alive_among(cells, positions.drop_last()) + alive_at(
            cells,
            positions.last().0 as int,
            positions.last().1 as int,
        )
    }
}

/// The state of the cell at (`r`, `c`) one generation later. Only `cells`
/// itself is read: no cell sees a neighbour's new state.
pub open spec fn next_cell(
    cells: Seq<Seq<Cell>>,
    kind: Neighborhood,
    rules: RuleSetView,
    death: DeathStyle,
    r: int,
    c: int,
) -> Cell {
    rules.next_state(cells[r][c], alive_neighbors(cells, kind, r, c), death)
}

/// The grid one generation after `cells`: same shape, every cell replaced by
/// its `next_cell`.
pub open spec fn stepped(
    cells: Seq<Seq<Cell>>,
    kind: Neighborhood,
    rules: RuleSetView,
    death: DeathStyle,
) -> Seq<Seq<Cell>> {
    Seq::new(
        cells.len(),
        |r: int| Seq::new(cells[r].len(), |c: int| next_cell(cells, kind, rules, death, r, c)),
    )
}

/// Whether some entry of `positions` is (`nr`, `nc`).
spec fn listed(positions: Seq<(usize, usize)>, nr: int, nc: int) -> bool {
    exists|i: int|
        0 <= i < positions.len() && (#[trigger] positions[i]).0 == nr && positions[i].1 == nc
}

/// What the position at offset (`dr`, `dc`) from (`r`, `c`) holds, if
/// `positions` lists it.
spec fn listed_part(
    cells: Seq<Seq<Cell>>,
    positions: Seq<(usize, usize)>,
    r: int,
    c: int,
    dr: int,
    dc: int,
) -> int {
    if listed(positions, r + dr, c + dc) {
        alive_at(cells, r + dr, c + dc)
    } else {
        0
    }
}

/// Whether `p` lies next to (`r`, `c`), diagonals included.
spec fn adjacent(r: int, c: int, p: (usize, usize)) -> bool {
    &&& -1 <= p.0 - r <= 1
    &&& -1 <= p.1 - c <= 1
    &&& !(p.0 == r && p.1 == c)
}

/// Counting over a list of distinct positions next to (`r`, `c`) is the
/// same as going through the eight offsets and counting those that the list
/// holds.
proof fn lemma_alive_among_by_offset(
    cells: Seq<Seq<Cell>>,
    positions: Seq<(usize, usize)>,
    r: int,
    c: int,
)
    requires
        forall|i: int| 0 <= i < positions.len() ==> adjacent(r, c, #[trigger] positions[i]),
        forall|i: int, j: int|
            0 <= i < j < positions.len() ==> #[trigger] positions[i] != #[trigger] positions[j],
    ensures
        alive_among(cells, positions) == listed_part(cells, positions, r, c, -1, -1) + listed_part(
            cells,
            positions,
            r,
            c,
            -1,
            0,
        ) + listed_part(cells, positions, r, c, -1, 1) + listed_part(cells, positions, r, c, 0, -1)
            + listed_part(cells, positions, r, c, 0, 1) + listed_part(
            cells,
            positions,
            r,
            c,
            1,
            -1,
        ) + listed_part(cells, positions, r, c, 1, 0) + listed_part(cells, positions, r, c, 1, 1),
    decreases positions.len(),
{
    if positions.len() == 0 {
        assert forall|nr: int, nc: int| !#[trigger] listed(positions, nr, nc) by {}
    } else {
        let rest = positions.drop_last();
        let p = positions.last();
        let last = positions.len() - 1;
        assert forall|i: int| 0 <= i < rest.len() implies adjacent(r, c, #[trigger] rest[i]) by {
            assert(rest[i] == positions[i]);
        }
        assert forall|i: int, j: int| 0 <= i < j < rest.len() implies #[trigger] rest[i]
            != #[trigger] rest[j] by {
            assert(rest[i] == positions[i] && rest[j] == positions[j]);
        }
        lemma_alive_among_by_offset(cells, rest, r, c);
        assert forall|nr: int, nc: int| #[trigger]
            listed(positions, nr, nc) <==> (listed(rest, nr, nc) || (p.0 == nr && p.1 == nc)) by {
            if listed(positions, nr, nc) {
                let i = choose|i: int|
                    0 <= i < positions.len() && (#[trigger] positions[i]).0 == nr && positions[i].1
                        == nc;
                if i < last {
                    assert(rest[i] == positions[i]);
                }
            }
            if listed(rest, nr, nc) {
                let i = choose|i: int|
                    0 <= i < rest.len() && (#[trigger] rest[i]).0 == nr && rest[i].1 == nc;
                assert(positions[i] == rest[i]);
            }
            if p.0 == nr && p.1 == nc {
                assert(positions[last] == p);
            }
        }
        if listed(rest, p.0 as int, p.1 as int) {
            let i = choose|i: int|
                0 <= i < rest.len() && (#[trigger] rest[i]).0 == p.0 && rest[i].1 == p.1;
            assert(positions[i] == rest[i]);
            assert(positions[i] == positions[last]);
        }
        assert(adjacent(r, c, positions[last]));
    }
}

/// Counting the live cells among the sampled neighbours of a cell gives its
/// number of live neighbours.
pub proof fn lemma_count_over_neighbors(
    cells: Seq<Seq<Cell>>,
    found: Seq<(usize, usize)>,
    kind: Neighborhood,
    row_count: usize,
    col_count: usize,
    r: int,
    c: int,
)
    requires
        rectangular(cells, row_count as int, col_count as int),
        samples(found, kind, row_count as int, col_count as int, r, c),
    ensures
        alive_among(cells, found) == alive_neighbors(cells, kind, r, c),
{
    assert forall|i: int| 0 <= i < found.len() implies adjacent(r, c, #[trigger] found[i]) by {
        let p = found[i];
        assert(found.contains((p.0, p.1)));
    }
    assert forall|i: int, j: int| 0 <= i < j < found.len() implies #[trigger] found[i]
        != #[trigger] found[j] by {
        assert(precedes(found[i], found[j]));
    }
    lemma_alive_among_by_offset(cells, found, r, c);
    assert forall|dr: int, dc: int|
        -1 <= dr <= 1 && -1 <= dc <= 1 && !(dr == 0 && dc == 0) implies listed_part(
        cells,
        found,
        r,
        c,
        dr,
        dc,
    ) == #[trigger] contribution(cells, kind, r, c, dr, dc) by {
        let nr = r + dr;
        let nc = c + dc;
        if listed(found, nr, nc) {
            let i = choose|i: int|
                0 <= i < found.len() && (#[trigger] found[i]).0 == nr && found[i].1 == nc;
            let p = found[i];
            assert(found.contains((p.0, p.1)));
        } else if kind.includes(dr, dc) && 0 <= nr < row_count && 0 <= nc < col_count {
            let p = (nr as usize, nc as usize);
            assert(is_neighbor(kind, row_count as int, col_count as int, r, c, p.0 as int, p.1 as int));
            assert(found.contains((p.0, p.1)));
            let i = choose|i: int| 0 <= i < found.len() && found[i] == p;
            assert(found[i].0 == nr && found[i].1 == nc);
        } else if 0 <= nr < row_count {
            assert(cells[nr].len() == col_count);
        }
    }
}

/// Counts the live neighbours of the cell at (`row`, `col`) in a grid of
/// `row_count` by `col_count` cells: samples the neighbourhood, then counts
/// the sampled cells that are alive or dying.
pub fn count_alive_neighbors(
    grid: &Grid,
    kind: Neighborhood,
    row: usize,
    col: usize,
    row_count: usize,
    col_count: usize,
) -> (count: usize)
    requires
        rectangular(grid_view(*grid), row_count as int, col_count as int),
    ensures
        count == alive_neighbors(grid_view(*grid), kind, row as int, col as int),
        count <= 8,
{
    let ghost cells = grid_view(*grid);
    let around = kind.neighbors(row, col, row_count, col_count);
    let mut count: usize = 0;
    let mut i: usize = 0;
    while i < around.len()
        invariant
            i <= around@.len(),
            cells == grid_view(*grid),
            rectangular(cells, row_count as int, col_count as int),
            samples(around@, kind, row_count as int, col_count as int, row as int, col as int),
            count == alive_among(cells, around@.take(i as int)),
            count <= i,
        decreases around@.len() - i,
    {
        let (r, c) = around[i];
        proof {
            assert(around@.contains((r, c)));
            assert(cells[r as int] == grid@[r as int]@);
            assert(cells[r as int].len() == col_count);
            assert(around@.take(i + 1).drop_last() == around@.take(i as int));
        }
        if grid[r][c].is_alive() {
            count = count + 1;
        }
        i = i + 1;
    }
    proof {
        assert(around@.take(around@.len() as int) == around@);
        lemma_count_over_neighbors(
            cells,
            around@,
            kind,
            row_count,
            col_count,
            row as int,
            col as int,
        );
    }
    count
}

/// Computes the next generation of a grid of `row_count` by `col_count` cells.
///
/// Every new cell is computed from `grid` alone; the grid under construction
/// is never read back.
pub fn step_grid(
    grid: &Grid,
    kind: Neighborhood,
    rules: &RuleSet,
    death: DeathStyle,
    row_count: usize,
    col_count: usize,
) -> (next: Grid)
    requires
        rectangular(grid_view(*grid), row_count as int, col_count as int),
    ensures
        grid_view(next) == stepped(grid_view(*grid), kind, rules@, death),
{
    let ghost cells = grid_view(*grid);
    let mut next: Grid = Vec::new();
    let mut r: usize = 0;
    while r < row_count
        invariant
            r <= row_count,
            cells == grid_view(*grid),
            rectangular(cells, row_count as int, col_count as int),
            next@.len() == r,
            forall|i: int|
                0 <= i < r ==> (#[trigger] next@[i])@ == stepped(cells, kind, rules@, death)[i],
        decreases row_count - r,
    {
        assert(cells[r as int] == grid@[r as int]@);
        assert(cells[r as int].len() == col_count);
        let mut line: Vec<Cell> = Vec::new();
        let mut c: usize = 0;
        while c < col_count
            invariant
                r < row_count,
                c <= col_count,
                cells == grid_view(*grid),
                rectangular(cells, row_count as int, col_count as int),
                cells[r as int] == grid@[r as int]@,
                cells[r as int].len() == col_count,
                line@.len() == c,
                forall|j: int|
                    0 <= j < c ==> #[trigger] line@[j] == next_cell(
                        cells,
                        kind,
                        rules@,
                        death,
                        r as int,
                        j,
                    ),
            decreases col_count - c,
        {
            let count = count_alive_neighbors(grid, kind, r, c, row_count, col_count);
            let cell = rules.transition(grid[r][c], count, death);
            line.push(cell);
            c = c + 1;
        }
        assert(line@ =~= stepped(cells, kind, rules@, death)[r as int]);
        next.push(line);
        r = r + 1;
    }
    assert(grid_view(next) =~= stepped(cells, kind, rules@, death));
    next
}

/// A step keeps the shape of the grid, and keeps every countdown positive
/// when the death style does.
pub proof fn lemma_stepped_keeps_validity(
    cells: Seq<Seq<Cell>>,
    kind: Neighborhood,
    rules: RuleSetView,
    death: DeathStyle,
    row_count: int,
    col_count: int,
)
    requires
        rectangular(cells, row_count, col_count),
        all_valid(cells),
        death.valid(),
    ensures
        rectangular(stepped(cells, kind, rules, death), row_count, col_count),
        all_valid(stepped(cells, kind, rules, death)),
{
    let after = stepped(cells, kind, rules, death);
    assert forall|r: int, c: int| 0 <= r < after.len() && 0 <= c < after[r].len() implies (
    #[trigger] after[r][c]).valid() by {
        assert(cells[r][c].valid());
        assert(after[r][c] == next_cell(cells, kind, rules, death, r, c));
    }
}

/// A dying cell with more than one generation left has one fewer after a
/// step, whatever its neighbours and whatever the rules.
pub proof fn lemma_countdown_decrements(
    cells: Seq<Seq<Cell>>,
    kind: Neighborhood,
    rules: RuleSetView,
    death: DeathStyle,
    r: int,
    c: int,
    ticks: usize,
)
    requires
        0 <= r < cells.len(),
        0 <= c < cells[r].len(),
        cells[r][c] == (Cell::Dying { ticks_till_death: ticks }),
        ticks > 1,
    ensures
        stepped(cells, kind, rules, death)[r][c] == (Cell::Dying {
            ticks_till_death: (ticks - 1) as usize,
        }),
{
}

/// A dying cell with one generation left is dead after a step, whatever its
/// neighbours and whatever the rules.
pub proof fn lemma_countdown_ends(
    cells: Seq<Seq<Cell>>,
    kind: Neighborhood,
    rules: RuleSetView,
    death: DeathStyle,
    r: int,
    c: int,
)
    requires
        0 <= r < cells.len(),
        0 <= c < cells[r].len(),
        cells[r][c] == (Cell::Dying { ticks_till_death: 1 }),
    ensures
        stepped(cells, kind, rules, death)[r][c] == Cell::Dead,
{
}

/// A grid of dead cells stays as it is under a step, unless some rule for
/// dead cells holds for a count of zero.
pub proof fn lemma_extinct_grid_is_fixed(
    cells: Seq<Seq<Cell>>,
    kind: Neighborhood,
    rules: RuleSetView,
    death: DeathStyle,
)
    requires
        all_dead(cells),
        forall|i: int| 0 <= i < rules.dead.len() ==> !(#[trigger] rules.dead[i]).0.matches(0),
    ensures
        stepped(cells, kind, rules, death) == cells,
        all_dead(stepped(cells, kind, rules, death)),
{
    let after = stepped(cells, kind, rules, death);
    lemma_first_match_none(rules.dead, 0);
    assert forall|r: int| 0 <= r < cells.len() implies #[trigger] after[r] == cells[r] by {
        assert forall|c: int| 0 <= c < cells[r].len() implies #[trigger] after[r][c]
            == cells[r][c] by {
            assert(cells[r][c] is Dead);
            lemma_extinct_grid_has_no_neighbors(cells, kind, r, c);
        }
        assert(after[r] =~= cells[r]);
    }
    assert(after =~= cells);
}

/// In a grid of dead cells no cell has a live neighbour.
pub proof fn lemma_extinct_grid_has_no_neighbors(
    cells: Seq<Seq<Cell>>,
    kind: Neighborhood,
    r: int,
    c: int,
)
    requires
        all_dead(cells),
    ensures
        alive_neighbors(cells, kind, r, c) == 0,
{
    assert forall|i: int, j: int| alive_at(cells, i, j) == 0 by {
        if 0 <= i < cells.len() && 0 <= j < cells[i].len() {
            assert(cells[i][j] is Dead);
        }
    }
}

/// Bounds on the number of live neighbours by position, in a rectangular
/// grid with hard edges: at most eight inside the grid, five on an edge and
/// three in a corner under `Moore`; at most four, three and two under
/// `VonNeumann`.
pub proof fn lemma_neighbor_bounds(
    cells: Seq<Seq<Cell>>,
    kind: Neighborhood,
    row_count: int,
    col_count: int,
    r: int,
    c: int,
)
    requires
        rectangular(cells, row_count, col_count),
        0 <= r < row_count,
        0 <= c < col_count,
    ensures
        0 <= alive_neighbors(cells, kind, r, c) <= neighbor_limit(
            kind,
            r == 0 || r == row_count - 1,
            c == 0 || c == col_count - 1,
        ),
{
    if r > 0 {
        assert(cells[r - 1].len() == col_count);
    }
    assert(cells[r].len() == col_count);
    if r + 1 < row_count {
        assert(cells[r + 1].len() == col_count);
    }
}

/// Whether `grid` has `row_count` rows of `col_count` cells each.
pub fn has_shape(grid: &Grid, row_count: usize, col_count: usize) -> (fits: bool)
    ensures
        fits == rectangular(grid_view(*grid), row_count as int, col_count as int),
{
    let ghost cells = grid_view(*grid);
    if grid.len() != row_count {
        return false;
    }
    let mut r: usize = 0;
    while r < grid.len()
        invariant
            r <= grid@.len(),
            grid@.len() == row_count,
            cells == grid_view(*grid),
            forall|i: int| 0 <= i < r ==> (#[trigger] cells[i]).len() == col_count,
        decreases grid@.len() - r,
    {
        assert(cells[r as int] == grid@[r as int]@);
        if grid[r].len() != col_count {
            return false;
        }
        r = r + 1;
    }
    true
}

/// Whether every dying cell of `grid` has generations left.
pub fn cells_valid(grid: &Grid) -> (valid: bool)
    ensures
        valid == all_valid(grid_view(*grid)),
{
    let ghost cells = grid_view(*grid);
    let mut r: usize = 0;
    while r < grid.len()
        invariant
            r <= grid@.len(),
            cells == grid_view(*grid),
            forall|i: int, j: int|
                0 <= i < r && 0 <= j < cells[i].len() ==> (#[trigger] cells[i][j]).valid(),
        decreases grid@.len() - r,
    {
        assert(cells[r as int] == grid@[r as int]@);
        let mut c: usize = 0;
        while c < grid[r].len()
            invariant
                r < grid@.len(),
                c <= grid@[r as int]@.len(),
                cells == grid_view(*grid),
                cells[r as int] == grid@[r as int]@,
                forall|j: int| 0 <= j < c ==> (#[trigger] cells[r as int][j]).valid(),
            decreases grid@[r as int]@.len() - c,
        {
            if let Cell::Dying { ticks_till_death } = grid[r][c] {
                if ticks_till_death == 0 {
                    assert(!cells[r as int][c as int].valid());
                    return false;
                }
            }
            c = c + 1;
        }
        r = r + 1;
    }
    true
}

/// Whether no cell of `grid` is in a state other than `Dead`.
pub fn is_extinct(grid: &Grid) -> (extinct: bool)
    ensures
        extinct == all_dead(grid_view(*grid)),
{
    let ghost cells = grid_view(*grid);
    let mut r: usize = 0;
    while r < grid.len()
        invariant
            r <= grid@.len(),
            cells == grid_view(*grid),
            forall|i: int, j: int|
                0 <= i < r && 0 <= j < cells[i].len() ==> (#[trigger] cells[i][j]) is Dead,
        decreases grid@.len() - r,
    {
        assert(cells[r as int] == grid@[r as int]@);
        let mut c: usize = 0;
        while c < grid[r].len()
            invariant
                r < grid@.len(),
                c <= grid@[r as int]@.len(),
                cells == grid_view(*grid),
                cells[r as int] == grid@[r as int]@,
                forall|j: int| 0 <= j < c ==> (#[trigger] cells[r as int][j]) is Dead,
            decreases grid@[r as int]@.len() - c,
        {
            if grid[r][c].is_alive() {
                assert(!(cells[r as int][c as int] is Dead));
                return false;
            }
            c = c + 1;
        }
        r = r + 1;
    }
    true
}

} // verus!
