//! The automaton: a grid with its configuration and generation counter, and
//! the sequence of generations it produces.

use crate::cell::{Cell, DeathStyle};
use crate::grid::{
    all_alive, all_dead, all_valid, cells_valid, grid_view, has_shape, is_extinct,
    lemma_stepped_keeps_validity, none_dying, rectangular, step_grid, stepped, Grid,
};
use crate::neighborhood::Neighborhood;
use crate::rules::{RuleSet, RuleSetView};
use vstd::prelude::*;

verus! {

/// Why an automaton could not be constructed.
#[derive(Debug, PartialEq, Eq, Clone, Copy, Structural)]
pub enum ConfigError {
    /// The row count is zero.
    ZeroRows,
    /// The column count is zero.
    ZeroCols,
    /// The death style is a countdown of zero generations.
    ZeroCountdown,
    /// The grid does not have as many rows as the row count says.
    RowCountMismatch,
    /// Some row of the grid does not have as many cells as the column count says.
    ColCountMismatch,
    /// Some dying cell of the grid has no generations left.
    ExpiredCell,
    /// The odds of a live cell are not a ratio between zero and one.
    InvalidOdds,
}

/// Mathematical content of an [`Automaton`].
pub struct AutomatonView {
    pub generation: nat,
    pub row_count: nat,
    pub col_count: nat,
    pub grid: Seq<Seq<Cell>>,
    pub neighborhood_type: Neighborhood,
    pub rule_set: RuleSetView,
    pub death_style: DeathStyle,
    pub halt_when_extinct: bool,
}

impl AutomatonView {
    /// The grid is `row_count` by `col_count`, neither of them zero, and no
    /// countdown in the grid or in the death style is zero.
    pub open spec fn valid(self) -> bool {
        &&& self.row_count > 0
        &&& self.col_count > 0
        &&& rectangular(self.grid, self.row_count as int, self.col_count as int)
        &&& all_valid(self.grid)
        &&& self.death_style.valid()
    }

    /// Whether the sequence of generations has ended: either every cell is
    /// dead and the automaton is set to halt then, or the generation counter
    /// cannot count further.
    pub open spec fn finished(self) -> bool {
        ||| self.halt_when_extinct && all_dead(self.grid)
        ||| self.generation >= usize::MAX
    }

    /// The automaton one generation later.
    pub open spec fn step(self) -> AutomatonView {
        AutomatonView {
            generation: self.generation + 1,
            grid: stepped(self.grid, self.neighborhood_type, self.rule_set, self.death_style),
            ..self
        }
    }

    /// The automaton `count` generations later.
    pub open spec fn steps(self, count: nat) -> AutomatonView
        decreases count,
    {
        if count == 0 {
            self
        } else {
            self.steps((count - 1) as nat).step()
        }
    }

    /// The snapshot handed out when the automaton advances: the grid as it
    /// was before the step, under the generation number of the step.
    pub open spec fn emitted(self) -> AutomatonView {
        AutomatonView { generation: self.generation + 1, ..self }
    }
}

/// Steps keep a valid automaton valid, and leave everything but the grid and
/// the generation counter as it was.
pub proof fn lemma_steps_keep_validity(start: AutomatonView, count: nat)
    requires
        start.valid(),
    ensures
        start.steps(count).valid(),
        start.steps(count) == (AutomatonView {
            generation: start.steps(count).generation,
            grid: start.steps(count).grid,
            ..start
        }),
    decreases count,
{
    if count > 0 {
        let before = start.steps((count - 1) as nat);
        lemma_steps_keep_validity(start, (count - 1) as nat);
        lemma_stepped_keeps_validity(
            before.grid,
            before.neighborhood_type,
            before.rule_set,
            before.death_style,
            before.row_count as int,
            before.col_count as int,
        );
    }
}

/// The generation counter goes up by exactly one with every step, and so
/// with every snapshot handed out: it never stands still and never resets.
pub proof fn lemma_generation_counts_steps(start: AutomatonView, count: nat)
    ensures
        start.steps(count).generation == start.generation + count,
        start.steps(count).emitted().generation == start.generation + count + 1,
        start.steps(count + 1).generation == start.steps(count).generation + 1,
    decreases count,
{
    if count > 0 {
        lemma_generation_counts_steps(start, (count - 1) as nat);
    }
}

/// With no rules for dead cells, a cell that is dead after some number of
/// steps is dead after the next one too: it never comes alive.
pub proof fn lemma_dead_stays_dead_without_dead_rules(
    start: AutomatonView,
    count: nat,
    r: int,
    c: int,
)
    requires
        start.rule_set.dead.len() == 0,
        0 <= r < start.grid.len(),
        0 <= c < start.grid[r].len(),
        start.steps(count).grid[r][c] is Dead,
    ensures
        start.steps(count + 1).grid[r][c] is Dead,
        !(start.steps(count + 1).grid[r][c] is Alive),
{
    lemma_steps_keep_shape(start, count);
}

/// With no rules for dead cells, a cell that starts dead is dead in every
/// later generation.
pub proof fn lemma_dead_forever_without_dead_rules(
    start: AutomatonView,
    count: nat,
    r: int,
    c: int,
)
    requires
        start.rule_set.dead.len() == 0,
        0 <= r < start.grid.len(),
        0 <= c < start.grid[r].len(),
        start.grid[r][c] is Dead,
    ensures
        start.steps(count).grid[r][c] is Dead,
    decreases count,
{
    if count > 0 {
        lemma_dead_forever_without_dead_rules(start, (count - 1) as nat, r, c);
        lemma_dead_stays_dead_without_dead_rules(start, (count - 1) as nat, r, c);
    }
}

/// Steps change neither the shape of the grid nor the configuration.
pub proof fn lemma_steps_keep_shape(start: AutomatonView, count: nat)
    ensures
        start.steps(count).grid.len() == start.grid.len(),
        forall|r: int|
            0 <= r < start.grid.len() ==> (#[trigger] start.steps(count).grid[r]).len()
                == start.grid[r].len(),
        start.steps(count).rule_set == start.rule_set,
        start.steps(count).neighborhood_type == start.neighborhood_type,
        start.steps(count).death_style == start.death_style,
        start.steps(count).halt_when_extinct == start.halt_when_extinct,
    decreases count,
{
    if count > 0 {
        lemma_steps_keep_shape(start, (count - 1) as nat);
    }
}

/// The error, if any, in the dimensions and the death style of a configuration.
pub open spec fn settings_error(row_count: int, col_count: int, death: DeathStyle) -> Option<
    ConfigError,
> {
    if row_count == 0 {
        Some(ConfigError::ZeroRows)
    } else if col_count == 0 {
        Some(ConfigError::ZeroCols)
    } else if !death.valid() {
        Some(ConfigError::ZeroCountdown)
    } else {
        None
    }
}

/// The error, if any, in a grid that is to be `row_count` by `col_count`.
pub open spec fn grid_error(cells: Seq<Seq<Cell>>, row_count: int, col_count: int) -> Option<
    ConfigError,
> {
    if cells.len() != row_count {
        Some(ConfigError::RowCountMismatch)
    } else if !rectangular(cells, row_count, col_count) {
        Some(ConfigError::ColCountMismatch)
    } else if !all_valid(cells) {
        Some(ConfigError::ExpiredCell)
    } else {
        None
    }
}

/// The error, if any, in a configuration with a grid supplied: the first of
/// `settings_error` and `grid_error`.
pub open spec fn config_error(
    row_count: int,
    col_count: int,
    cells: Seq<Seq<Cell>>,
    death: DeathStyle,
) -> Option<ConfigError> {
    match settings_error(row_count, col_count, death) {
        Some(error) => Some(error),
        None => grid_error(cells, row_count, col_count),
    }
}

/// Rows of an automaton for which no row count is given.
pub const DEFAULT_ROW_COUNT: usize = 20;

/// Columns of an automaton for which no column count is given.
pub const DEFAULT_COL_COUNT: usize = 20;

/// Whether `numerator` in `denominator` is a ratio between zero and one.
pub open spec fn odds_valid(numerator: u32, denominator: u32) -> bool {
    denominator != 0 && numerator <= denominator
}

/// Flips a coin that shows heads `numerator` times in `denominator`, with
/// `rand::Rng::gen_ratio` on the generator that `rand::thread_rng` hands out.
/// The outcome is random: the contract claims only that the coin always shows
/// heads when the two numbers are equal and never when `numerator` is zero.
/// Odds that are no ratio between zero and one are left out, since
/// `gen_ratio` panics on them.
#[verifier::external_body]
fn flip(numerator: u32, denominator: u32) -> (heads: bool)
    requires
        odds_valid(numerator, denominator),
    ensures
        numerator == denominator ==> heads,
        numerator == 0 ==> !heads,
{
    rand::Rng::gen_ratio(&mut rand::thread_rng(), numerator, denominator)
}

/// A cellular automaton on a grid with hard edges.
///
/// The grid always has `row_count` rows of `col_count` cells, neither count
/// is zero, and no dying cell has run out of generations.
#[derive(Debug)]
pub struct Automaton {
    generation: usize,
    row_count: usize,
    col_count: usize,
    grid: Grid,
    neighborhood_type: Neighborhood,
    rule_set: RuleSet,
    death_style: DeathStyle,
    halt_when_extinct: bool,
}

impl View for Automaton {
    type V = AutomatonView;

    closed spec fn view(&self) -> AutomatonView {
        AutomatonView {
            generation: self.generation as nat,
            row_count: self.row_count as nat,
            col_count: self.col_count as nat,
            grid: grid_view(self.grid),
            neighborhood_type: self.neighborhood_type,
            rule_set: self.rule_set@,
            death_style: self.death_style,
            halt_when_extinct: self.halt_when_extinct,
        }
    }
}

impl Automaton {
    #[verifier::type_invariant]
    spec fn well_formed(&self) -> bool {
        self@.valid()
    }

    /// Makes an automaton at generation zero from a grid and its configuration.
    ///
    /// Fails when a count is zero, when the death style is a countdown of
    /// zero, when the grid is not `row_count` by `col_count`, or when a dying
    /// cell of the grid has no generations left.
    pub fn new(
        row_count: usize,
        col_count: usize,
        grid: Grid,
        neighborhood_type: Neighborhood,
        rule_set: RuleSet,
        death_style: DeathStyle,
        halt_when_extinct: bool,
    ) -> (made: Result<Automaton, ConfigError>)
        ensures
            match made {
                Ok(automaton) => {
                    &&& config_error(
                        row_count as int,
                        col_count as int,
                        grid_view(grid),
                        death_style,
                    ) is None
                    &&& automaton@ == (AutomatonView {
                        generation: 0,
                        row_count: row_count as nat,
                        col_count: col_count as nat,
                        grid: grid_view(grid),
                        neighborhood_type,
                        rule_set: rule_set@,
                        death_style,
                        halt_when_extinct,
                    })
                    &&& automaton@.valid()
                },
                Err(error) => config_error(
                    row_count as int,
                    col_count as int,
                    grid_view(grid),
                    death_style,
                ) == Some(error),
            },
    {
        if row_count == 0 {
            return Err(ConfigError::ZeroRows);
        }
        if col_count == 0 {
            return Err(ConfigError::ZeroCols);
        }
        if let DeathStyle::Countdown { ticks } = death_style {
            if ticks == 0 {
                return Err(ConfigError::ZeroCountdown);
            }
        }
        if grid.len() != row_count {
            assert(grid_view(grid).len() == grid@.len());
            return Err(ConfigError::RowCountMismatch);
        }
        if !has_shape(&grid, row_count, col_count) {
            return Err(ConfigError::ColCountMismatch);
        }
        if !cells_valid(&grid) {
            return Err(ConfigError::ExpiredCell);
        }
        Ok(
            Automaton {
                generation: 0,
                row_count,
                col_count,
                grid,
                neighborhood_type,
                rule_set,
                death_style,
                halt_when_extinct,
            },
        )
    }

    /// A cell that is alive or dead with even odds.
    pub fn random_cell() -> (cell: Cell)
        ensures
            cell is Alive || cell is Dead,
    {
        Self::random_cell_with_odds(1, 2)
    }

    /// A cell that is alive with odds of `numerator` in `denominator`, and
    /// dead otherwise.
    pub fn random_cell_with_odds(numerator: u32, denominator: u32) -> (cell: Cell)
        requires
            odds_valid(numerator, denominator),
        ensures
            cell is Alive || cell is Dead,
            numerator == denominator ==> cell is Alive,
            numerator == 0 ==> cell is Dead,
    {
        Cell::from_coin(flip(numerator, denominator))
    }

    /// A grid of `row_count` by `col_count` cells, each alive or dead with
    /// even odds.
    pub fn random_population(row_count: usize, col_count: usize) -> (grid: Grid)
        ensures
            rectangular(grid_view(grid), row_count as int, col_count as int),
            none_dying(grid_view(grid)),
    {
        Self::random_population_with_odds(row_count, col_count, 1, 2)
    }

    /// A grid of `row_count` by `col_count` cells, each alive with odds of
    /// `numerator` in `denominator` and dead otherwise.
    pub fn random_population_with_odds(
        row_count: usize,
        col_count: usize,
        numerator: u32,
        denominator: u32,
    ) -> (grid: Grid)
        requires
            odds_valid(numerator, denominator),
        ensures
            rectangular(grid_view(grid), row_count as int, col_count as int),
            none_dying(grid_view(grid)),
            numerator == denominator ==> all_alive(grid_view(grid)),
            numerator == 0 ==> all_dead(grid_view(grid)),
    {
        let mut grid: Grid = Vec::new();
        let mut r: usize = 0;
        while r < row_count
            invariant
                r <= row_count,
                odds_valid(numerator, denominator),
                grid@.len() == r,
                forall|i: int| 0 <= i < r ==> (#[trigger] grid@[i])@.len() == col_count,
                forall|i: int, j: int|
                    0 <= i < r && 0 <= j < col_count ==> {
                        let cell = #[trigger] grid@[i]@[j];
                        &&& cell is Alive || cell is Dead
                        &&& numerator == denominator ==> cell is Alive
                        &&& numerator == 0 ==> cell is Dead
                    },
            decreases row_count - r,
        {
            let mut line: Vec<Cell> = Vec::new();
            let mut c: usize = 0;
            while c < col_count
                invariant
                    c <= col_count,
                    odds_valid(numerator, denominator),
                    line@.len() == c,
                    forall|j: int|
                        0 <= j < c ==> {
                            let cell = #[trigger] line@[j];
                            &&& cell is Alive || cell is Dead
                            &&& numerator == denominator ==> cell is Alive
                            &&& numerator == 0 ==> cell is Dead
                        },
                decreases col_count - c,
            {
                line.push(Self::random_cell_with_odds(numerator, denominator));
                c = c + 1;
            }
            grid.push(line);
            r = r + 1;
        }
        proof {
            let cells = grid_view(grid);
            assert forall|i: int, j: int| 0 <= i < cells.len() && 0 <= j < cells[i].len() implies {
                let cell = #[trigger] cells[i][j];
                &&& cell is Alive || cell is Dead
                &&& numerator == denominator ==> cell is Alive
                &&& numerator == 0 ==> cell is Dead
            } by {
                assert(cells[i][j] == grid@[i]@[j]);
            }
        }
        grid
    }

    /// Advances the automaton by one generation and hands out a snapshot.
    ///
    /// The snapshot carries the new generation number and the grid as it was
    /// before the step, so the first snapshot of a fresh automaton shows the
    /// initial grid as generation one. The automaton itself then holds the
    /// stepped grid.
    ///
    /// Returns `None`, and leaves the automaton as it is, once the sequence
    /// has ended: when every cell is dead and the automaton is set to halt
    /// on that, or when the generation counter has reached its limit. An
    /// ended sequence stays ended.
    pub fn next(&mut self) -> (emitted: Option<Automaton>)
        ensures
            match emitted {
                Some(snapshot) => {
                    &&& !old(self)@.finished()
                    &&& snapshot@ == old(self)@.emitted()
                    &&& final(self)@ == old(self)@.step()
                },
                None => old(self)@.finished() && final(self)@ == old(self)@,
            },
    {
        proof {
            use_type_invariant(&*self);
        }
        if self.generation == usize::MAX {
            return None;
        }
        if self.halt_when_extinct && is_extinct(&self.grid) {
            return None;
        }
        let mut grid = step_grid(
            &self.grid,
            self.neighborhood_type,
            &self.rule_set,
            self.death_style,
            self.row_count,
            self.col_count,
        );
        proof {
            lemma_stepped_keeps_validity(
                grid_view(self.grid),
                self.neighborhood_type,
                self.rule_set@,
                self.death_style,
                self.row_count as int,
                self.col_count as int,
            );
        }
        self.generation = self.generation + 1;
        core::mem::swap(&mut self.grid, &mut grid);
        Some(
            Automaton {
                generation: self.generation,
                row_count: self.row_count,
                col_count: self.col_count,
                grid,
                neighborhood_type: self.neighborhood_type,
                rule_set: self.rule_set.duplicate(),
                death_style: self.death_style,
                halt_when_extinct: self.halt_when_extinct,
            },
        )
    }
}

impl Automaton {
    /// A builder holding the default configuration.
    pub fn builder() -> (builder: AutomatonBuilder)
        ensures
            builder.is_default(),
    {
        AutomatonBuilder::default()
    }

    pub fn generation(&self) -> (generation: usize)
        ensures
            generation == self@.generation,
    {
        self.generation
    }

    pub fn row_count(&self) -> (row_count: usize)
        ensures
            row_count == self@.row_count,
            row_count > 0,
    {
        proof {
            use_type_invariant(self);
        }
        self.row_count
    }

    pub fn col_count(&self) -> (col_count: usize)
        ensures
            col_count == self@.col_count,
            col_count > 0,
    {
        proof {
            use_type_invariant(self);
        }
        self.col_count
    }

    /// The current grid, always `row_count` by `col_count`.
    pub fn grid(&self) -> (grid: &Grid)
        ensures
            grid_view(*grid) == self@.grid,
            self@.valid(),
    {
        proof {
            use_type_invariant(self);
        }
        &self.grid
    }

    pub fn neighborhood_type(&self) -> (kind: Neighborhood)
        ensures
            kind == self@.neighborhood_type,
    {
        self.neighborhood_type
    }

    pub fn rule_set(&self) -> (rules: &RuleSet)
        ensures
            rules@ == self@.rule_set,
    {
        &self.rule_set
    }

    pub fn death_style(&self) -> (death: DeathStyle)
        ensures
            death == self@.death_style,
            death.valid(),
    {
        proof {
            use_type_invariant(self);
        }
        self.death_style
    }

    pub fn halt_when_extinct(&self) -> (halts: bool)
        ensures
            halts == self@.halt_when_extinct,
    {
        self.halt_when_extinct
    }
}

impl Default for Automaton {
    /// A randomly populated automaton of the default size, under Conway's
    /// rules and the Moore neighbourhood, with immediate death.
    fn default() -> (automaton: Automaton)
        ensures
            automaton@.generation == 0,
            automaton@.row_count == DEFAULT_ROW_COUNT,
            automaton@.col_count == DEFAULT_COL_COUNT,
            automaton@.neighborhood_type == Neighborhood::Moore,
            automaton@.rule_set == RuleSetView::conway(),
            automaton@.death_style == DeathStyle::Immediate,
            !automaton@.halt_when_extinct,
            none_dying(automaton@.grid),
            automaton@.valid(),
    {
        Automaton {
            row_count: DEFAULT_ROW_COUNT,
            col_count: DEFAULT_COL_COUNT,
            grid: Automaton::random_population(DEFAULT_ROW_COUNT, DEFAULT_COL_COUNT),
            generation: 0,
            neighborhood_type: Neighborhood::default(),
            rule_set: RuleSet::default(),
            death_style: DeathStyle::default(),
            halt_when_extinct: false,
        }
    }
}

/// Configuration of an automaton, every field with a default.
///
/// When no grid is given, `build` populates one at random with `live_odds`,
/// a ratio of numerator to denominator.
#[derive(Debug)]
pub struct AutomatonBuilder {
    pub row_count: usize,
    pub col_count: usize,
    pub grid: Option<Grid>,
    pub neighborhood_type: Neighborhood,
    pub rule_set: RuleSet,
    pub death_style: DeathStyle,
    pub halt_when_extinct: bool,
    pub live_odds: (u32, u32),
}

impl Default for AutomatonBuilder {
    fn default() -> (builder: AutomatonBuilder)
        ensures
            builder.is_default(),
    {
        AutomatonBuilder {
            row_count: DEFAULT_ROW_COUNT,
            col_count: DEFAULT_COL_COUNT,
            grid: None,
            neighborhood_type: Neighborhood::default(),
            rule_set: RuleSet::default(),
            death_style: DeathStyle::default(),
            halt_when_extinct: false,
            live_odds: (1, 2),
        }
    }
}

impl AutomatonBuilder {
    /// The default configuration: the default size, no grid, the Moore
    /// neighbourhood, Conway's rules, immediate death, no halting, even odds.
    pub open spec fn is_default(self) -> bool {
        &&& self.row_count == DEFAULT_ROW_COUNT
        &&& self.col_count == DEFAULT_COL_COUNT
        &&& self.grid is None
        &&& self.neighborhood_type == Neighborhood::Moore
        &&& self.rule_set@ == RuleSetView::conway()
        &&& self.death_style == DeathStyle::Immediate
        &&& !self.halt_when_extinct
        &&& self.live_odds == (1u32, 2u32)
    }

    /// The error, if any, that keeps this configuration from being built:
    /// the first of `settings_error`, then `grid_error` for a grid that was
    /// given, or invalid odds where a grid is to be populated.
    pub open spec fn build_error(self) -> Option<ConfigError> {
        match settings_error(self.row_count as int, self.col_count as int, self.death_style) {
            Some(error) => Some(error),
            None => match self.grid {
                Some(grid) => grid_error(
                    grid_view(grid),
                    self.row_count as int,
                    self.col_count as int,
                ),
                None => if odds_valid(self.live_odds.0, self.live_odds.1) {
                    None
                } else {
                    Some(ConfigError::InvalidOdds)
                },
            },
        }
    }

    /// The automaton that this configuration gives around the grid `cells`.
    pub open spec fn outcome(self, cells: Seq<Seq<Cell>>) -> AutomatonView {
        AutomatonView {
            generation: 0,
            row_count: self.row_count as nat,
            col_count: self.col_count as nat,
            grid: cells,
            neighborhood_type: self.neighborhood_type,
            rule_set: self.rule_set@,
            death_style: self.death_style,
            halt_when_extinct: self.halt_when_extinct,
        }
    }

    pub fn row_count(self, row_count: usize) -> (builder: AutomatonBuilder)
        ensures
            builder == (AutomatonBuilder { row_count, ..self }),
    {
        AutomatonBuilder { row_count, ..self }
    }

    pub fn col_count(self, col_count: usize) -> (builder: AutomatonBuilder)
        ensures
            builder == (AutomatonBuilder { col_count, ..self }),
    {
        AutomatonBuilder { col_count, ..self }
    }

    pub fn grid(self, grid: Grid) -> (builder: AutomatonBuilder)
        ensures
            builder == (AutomatonBuilder { grid: Some(grid), ..self }),
    {
        AutomatonBuilder { grid: Some(grid), ..self }
    }

    pub fn neighborhood_type(self, neighborhood_type: Neighborhood) -> (builder: AutomatonBuilder)
        ensures
            builder == (AutomatonBuilder { neighborhood_type, ..self }),
    {
        AutomatonBuilder { neighborhood_type, ..self }
    }

    pub fn rule_set(self, rule_set: RuleSet) -> (builder: AutomatonBuilder)
        ensures
            builder == (AutomatonBuilder { rule_set, ..self }),
    {
        AutomatonBuilder { rule_set, ..self }
    }

    pub fn death_style(self, death_style: DeathStyle) -> (builder: AutomatonBuilder)
        ensures
            builder == (AutomatonBuilder { death_style, ..self }),
    {
        AutomatonBuilder { death_style, ..self }
    }

    pub fn halt_when_extinct(self, halt_when_extinct: bool) -> (builder: AutomatonBuilder)
        ensures
            builder == (AutomatonBuilder { halt_when_extinct, ..self }),
    {
        AutomatonBuilder { halt_when_extinct, ..self }
    }

    pub fn live_odds(self, numerator: u32, denominator: u32) -> (builder: AutomatonBuilder)
        ensures
            builder == (AutomatonBuilder { live_odds: (numerator, denominator), ..self }),
    {
        AutomatonBuilder { live_odds: (numerator, denominator), ..self }
    }

    /// Makes the automaton, at generation zero.
    ///
    /// A grid that was given is taken as it is. Otherwise a grid of
    /// `row_count` by `col_count` cells is populated at random: each cell
    /// alive with the configured odds, dead otherwise.
    pub fn build(self) -> (made: Result<Automaton, ConfigError>)
        ensures
            match made {
                Ok(automaton) => {
                    &&& self.build_error() is None
                    &&& automaton@ == self.outcome(automaton@.grid)
                    &&& automaton@.valid()
                    &&& match self.grid {
                        Some(grid) => automaton@.grid == grid_view(grid),
                        None => {
                            &&& none_dying(automaton@.grid)
                            &&& self.live_odds.0 == self.live_odds.1 ==> all_alive(
                                automaton@.grid,
                            )
                            &&& self.live_odds.0 == 0 ==> all_dead(automaton@.grid)
                        },
                    }
                },
                Err(error) => self.build_error() == Some(error),
            },
    {
        let AutomatonBuilder {
            row_count,
            col_count,
            grid,
            neighborhood_type,
            rule_set,
            death_style,
            halt_when_extinct,
            live_odds,
        } = self;
        match grid {
            Some(given) => Automaton::new(
                row_count,
                col_count,
                given,
                neighborhood_type,
                rule_set,
                death_style,
                halt_when_extinct,
            ),
            None => {
                if row_count == 0 {
                    return Err(ConfigError::ZeroRows);
                }
                if col_count == 0 {
                    return Err(ConfigError::ZeroCols);
                }
                if let DeathStyle::Countdown { ticks } = death_style {
                    if ticks == 0 {
                        return Err(ConfigError::ZeroCountdown);
                    }
                }
                if live_odds.1 == 0 || live_odds.0 > live_odds.1 {
                    return Err(ConfigError::InvalidOdds);
                }
                let populated = Automaton::random_population_with_odds(
                    row_count,
                    col_count,
                    live_odds.0,
                    live_odds.1,
                );
                Automaton::new(
                    row_count,
                    col_count,
                    populated,
                    neighborhood_type,
                    rule_set,
                    death_style,
                    halt_when_extinct,
                )
            },
        }
    }
}

} // verus!
