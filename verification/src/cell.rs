//! Cell states, the actions that rules prescribe, and how a death is carried out.

use vstd::prelude::*;
use vstd::std_specs::convert::FromSpecImpl;

verus! {

/// Countdown given to a cell that starts dying when no other value is configured.
pub const TICKS_TILL_DEATH: usize = 3;

/// State of one cell.
///
/// A `Dying` cell still counts as alive for its neighbours; it turns `Dead`
/// when its countdown runs out.
#[derive(Debug, PartialEq, Eq, PartialOrd, Ord, Clone, Copy, Structural)]
pub enum Cell {
    Dead,
    Alive,
    Dying { ticks_till_death: usize },
}

/// What a matching rule does to a cell.
#[derive(Debug, PartialEq, Eq, PartialOrd, Ord, Clone, Copy, Structural)]
pub enum Action {
    Live,
    Die,
}

/// How `Action::Die` is carried out.
///
/// `Immediate` turns the cell `Dead` at once. `Countdown` turns it `Dying`
/// with the given number of generations left.
#[derive(Debug, PartialEq, Eq, Clone, Copy, Structural)]
pub enum DeathStyle {
    Immediate,
    Countdown { ticks: usize },
}

impl Cell {
    /// A dying cell always has generations left.
    pub open spec fn valid(self) -> bool {
        self matches Cell::Dying { ticks_till_death } ==> ticks_till_death > 0
    }

    /// Whether the cell counts as a live neighbour: every state but `Dead` does.
    pub open spec fn counts_alive(self) -> bool {
        self !is Dead
    }

    /// The state of a dying cell one generation later; other cells are unchanged.
    pub open spec fn aged(self) -> Cell {
        match self {
            Cell::Dying { ticks_till_death } => if ticks_till_death <= 1 {
                Cell::Dead
            } else {
                Cell::Dying { ticks_till_death: (ticks_till_death - 1) as usize }
            },
            other => other,
        }
    }

    pub fn is_dead(&self) -> (dead: bool)
        ensures
            dead == (*self is Dead),
    {
        matches!(self, Cell::Dead)
    }

    pub fn is_alive(&self) -> (alive: bool)
        ensures
            alive == self.counts_alive(),
    {
        !self.is_dead()
    }

    pub fn is_dying(&self) -> (dying: bool)
        ensures
            dying == (*self is Dying),
    {
        matches!(self, Cell::Dying { ticks_till_death: _ })
    }

    /// A cell that has just started dying with the standard countdown.
    pub fn dying_cell() -> (cell: Cell)
        ensures
            cell == (Cell::Dying { ticks_till_death: TICKS_TILL_DEATH }),
            cell.valid(),
    {
        Cell::Dying { ticks_till_death: TICKS_TILL_DEATH }
    }

    /// The cell that a coin flip gives: alive on heads, dead on tails.
    pub fn from_coin(heads: bool) -> (cell: Cell)
        ensures
            cell == if heads {
                Cell::Alive
            } else {
                Cell::Dead
            },
    {
        if heads {
            Cell::Alive
        } else {
            Cell::default()
        }
    }

    /// Advances the countdown of a dying cell by one generation.
    pub fn tick(self) -> (next: Cell)
        ensures
            next == self.aged(),
            self.valid() ==> next.valid(),
    {
        match self {
            Cell::Dying { ticks_till_death } => {
                if ticks_till_death <= 1 {
                    Cell::Dead
                } else {
                    Cell::Dying { ticks_till_death: ticks_till_death - 1 }
                }
            },
            other => other,
        }
    }
}

impl Default for Cell {
    fn default() -> (cell: Cell)
        ensures
            cell == Cell::Dead,
    {
        Cell::Dead
    }
}

impl Default for Action {
    fn default() -> (action: Action)
        ensures
            action == Action::Live,
    {
        Action::Live
    }
}

impl Default for DeathStyle {
    /// Immediate death, under which the default rules are exactly Conway's
    /// Game of Life.
    fn default() -> (style: DeathStyle)
        ensures
            style == DeathStyle::Immediate,
    {
        DeathStyle::Immediate
    }
}

impl DeathStyle {
    /// A countdown must leave the cell at least one generation.
    pub open spec fn valid(self) -> bool {
        self matches DeathStyle::Countdown { ticks } ==> ticks > 0
    }

    /// The state a cell takes when it is told to die.
    pub open spec fn spec_outcome(self) -> Cell {
        match self {
            DeathStyle::Immediate => Cell::Dead,
            DeathStyle::Countdown { ticks } => Cell::Dying { ticks_till_death: ticks },
        }
    }

    #[verifier::when_used_as_spec(spec_outcome)]
    pub fn outcome(self) -> (cell: Cell)
        ensures
            cell == self.spec_outcome(),
    {
        match self {
            DeathStyle::Immediate => Cell::Dead,
            DeathStyle::Countdown { ticks } => Cell::Dying { ticks_till_death: ticks },
        }
    }
}

impl Action {
    /// The state a cell takes when this action is applied under `death`.
    pub open spec fn spec_outcome(self, death: DeathStyle) -> Cell {
        match self {
            Action::Live => Cell::Alive,
            Action::Die => death.spec_outcome(),
        }
    }

    #[verifier::when_used_as_spec(spec_outcome)]
    pub fn outcome(self, death: DeathStyle) -> (cell: Cell)
        ensures
            cell == self.spec_outcome(death),
    {
        match self {
            Action::Live => Cell::Alive,
            Action::Die => death.outcome(),
        }
    }
}

/// An action applied with immediate death: `Live` gives `Alive`, `Die` gives `Dead`.
impl From<Action> for Cell {
    fn from(value: Action) -> (cell: Cell) {
        value.outcome(DeathStyle::Immediate)
    }
}

impl FromSpecImpl<Action> for Cell {
    open spec fn obeys_from_spec() -> bool {
        true
    }

    open spec fn from_spec(value: Action) -> Cell {
        value.spec_outcome(DeathStyle::Immediate)
    }
}

impl From<&Action> for Cell {
    fn from(value: &Action) -> (cell: Cell) {
        Cell::from(*value)
    }
}

impl FromSpecImpl<&Action> for Cell {
    open spec fn obeys_from_spec() -> bool {
        true
    }

    open spec fn from_spec(value: &Action) -> Cell {
        value.spec_outcome(DeathStyle::Immediate)
    }
}

} // verus!
