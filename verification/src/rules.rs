//! Rules over live-neighbour counts and the ordered, first-match rule set.

use crate::cell::{Action, Cell, DeathStyle};
use core::ops::ControlFlow;
use vstd::prelude::*;

verus! {

/// A predicate over a live-neighbour count.
///
/// `Range(lo, hi)` holds for counts from `lo` to `hi`, both included.
/// `Singles` holds for the counts it lists.
#[derive(Debug, PartialEq, Eq)]
pub enum Rules {
    Range(usize, usize),
    Singles(Vec<usize>),
}

/// Mathematical content of a [`Rules`] value.
pub enum RulesView {
    Range(usize, usize),
    Singles(Seq<usize>),
}

impl RulesView {
    /// Whether the rule holds for `count`.
    pub open spec fn matches(self, count: int) -> bool {
        match self {
            RulesView::Range(lo, hi) => lo <= count <= hi,
            RulesView::Singles(counts) => 0 <= count <= usize::MAX && counts.contains(
                count as usize,
            ),
        }
    }
}

impl View for Rules {
    type V = RulesView;

    open spec fn view(&self) -> RulesView {
        match self {
            Rules::Range(lo, hi) => RulesView::Range(*lo, *hi),
            Rules::Singles(counts) => RulesView::Singles(counts@),
        }
    }
}

/// One entry of a rule set: a rule and the action it prescribes.
pub type Entry = (Rules, Action);

/// Mathematical content of a sequence of entries.
pub open spec fn entries_view(entries: Seq<Entry>) -> Seq<(RulesView, Action)> {
    Seq::new(entries.len(), |i: int| (entries[i].0@, entries[i].1))
}

/// The action of the first entry whose rule holds for `count`, if any does.
/// Entries after the first match are not consulted.
pub open spec fn first_match(entries: Seq<(RulesView, Action)>, count: int) -> Option<Action>
    decreases entries.len(),
{
    if entries.len() == 0 {
        None
    } else if entries[0].0.matches(count) {
        Some(entries[0].1)
    } else {
        first_match(entries.drop_first(), count)
    }
}

/// The state that `entries` give a cell in state `current` with `count` live
/// neighbours: the outcome of the first matching action, or `current` when
/// nothing matches.
pub open spec fn resolve(
    entries: Seq<(RulesView, Action)>,
    count: int,
    current: Cell,
    death: DeathStyle,
) -> Cell {
    match first_match(entries, count) {
        Some(action) => action.spec_outcome(death),
        None => current,
    }
}

/// `first_match` picks the entry at the least matching index.
pub proof fn lemma_first_match_is_least(
    entries: Seq<(RulesView, Action)>,
    count: int,
    index: int,
)
    requires
        0 <= index < entries.len(),
        entries[index].0.matches(count),
        forall|j: int| 0 <= j < index ==> !(#[trigger] entries[j]).0.matches(count),
    ensures
        first_match(entries, count) == Some(entries[index].1),
    decreases index,
{
    if index > 0 {
        let rest = entries.drop_first();
        assert(!entries[0].0.matches(count));
        assert forall|j: int| 0 <= j < index - 1 implies !(#[trigger] rest[j]).0.matches(count) by {
            assert(rest[j] == entries[j + 1]);
        }
        lemma_first_match_is_least(rest, count, index - 1);
    }
}

/// `first_match` finds nothing exactly when no entry holds for `count`.
pub proof fn lemma_first_match_none(entries: Seq<(RulesView, Action)>, count: int)
    ensures
        first_match(entries, count) is None <==> forall|j: int|
            0 <= j < entries.len() ==> !(#[trigger] entries[j]).0.matches(count),
    decreases entries.len(),
{
    if entries.len() > 0 {
        let rest = entries.drop_first();
        lemma_first_match_none(rest, count);
        if !entries[0].0.matches(count) {
            if first_match(rest, count) is None {
                assert forall|j: int| 0 <= j < entries.len() implies !(#[trigger] entries[j]).0.matches(
                    count,
                ) by {
                    if j > 0 {
                        assert(rest[j - 1] == entries[j]);
                    }
                }
            } else {
                let k = choose|k: int| 0 <= k < rest.len() && (#[trigger] rest[k]).0.matches(count);
                assert(entries[k + 1] == rest[k]);
            }
        }
    }
}

/// Asks `itertools::Itertools::contains` whether `count` occurs among
/// `counts`, walking them front to back. The contract claims that the answer
/// is true exactly when some element equals `count`.
#[verifier::external_body]
fn singles_contain(counts: &Vec<usize>, count: usize) -> (found: bool)
    ensures
        found == counts@.contains(count),
{
    itertools::Itertools::contains(&mut counts.iter().copied(), &count)
}

impl Rules {
    /// Whether the rule holds for `alive_neighbors`.
    pub fn holds(&self, alive_neighbors: usize) -> (held: bool)
        ensures
            held == self@.matches(alive_neighbors as int),
    {
        match self {
            Rules::Range(lo, hi) => *lo <= alive_neighbors && alive_neighbors <= *hi,
            Rules::Singles(counts) => singles_contain(counts, alive_neighbors),
        }
    }

    /// Applies `action` to `cell` if the rule holds for `alive_neighbors`.
    ///
    /// Returns `Break` when the rule held and the cell was set, `Continue`
    /// with the cell untouched otherwise.
    pub fn check(
        &self,
        alive_neighbors: usize,
        cell: &mut Cell,
        action: Action,
        death: DeathStyle,
    ) -> (flow: ControlFlow<()>)
        ensures
            self@.matches(alive_neighbors as int) ==> flow is Break && *final(cell)
                == action.spec_outcome(death),
            !self@.matches(alive_neighbors as int) ==> flow is Continue && *final(cell) == *old(
                cell,
            ),
    {
        if self.holds(alive_neighbors) {
            *cell = action.outcome(death);
            ControlFlow::Break(())
        } else {
            ControlFlow::Continue(())
        }
    }

    /// A copy with the same content.
    pub fn duplicate(&self) -> (copy: Rules)
        ensures
            copy@ == self@,
    {
        match self {
            Rules::Range(lo, hi) => Rules::Range(*lo, *hi),
            Rules::Singles(counts) => {
                let mut copied: Vec<usize> = Vec::new();
                let mut i: usize = 0;
                while i < counts.len()
                    invariant
                        i <= counts.len(),
                        copied@ == counts@.subrange(0, i as int),
                    decreases counts.len() - i,
                {
                    copied.push(counts[i]);
                    i = i + 1;
                }
                assert(copied@ == counts@);
                Rules::Singles(copied)
            },
        }
    }
}

/// Applies the first entry of `entries` whose rule holds for
/// `alive_neighbors` to `cell`; leaves the cell as it is when none holds.
pub fn apply_first_match(
    entries: &Vec<Entry>,
    alive_neighbors: usize,
    cell: &mut Cell,
    death: DeathStyle,
)
    ensures
        *final(cell) == resolve(entries_view(entries@), alive_neighbors as int, *old(cell), death),
{
    let ghost all = entries_view(entries@);
    let ghost count = alive_neighbors as int;
    let mut i: usize = 0;
    while i < entries.len()
        invariant
            i <= entries.len(),
            all == entries_view(entries@),
            count == alive_neighbors as int,
            *cell == *old(cell),
            forall|j: int| 0 <= j < i ==> !(#[trigger] all[j]).0.matches(count),
        decreases entries.len() - i,
    {
        let flow = entries[i].0.check(alive_neighbors, cell, entries[i].1, death);
        if let ControlFlow::Break(_) = flow {
            proof {
                assert(all[i as int] == (entries@[i as int].0@, entries@[i as int].1));
                lemma_first_match_is_least(all, count, i as int);
            }
            return ;
        }
        assert(all[i as int] == (entries@[i as int].0@, entries@[i as int].1));
        i = i + 1;
    }
    proof {
        lemma_first_match_none(all, count);
    }
}

/// The two ordered rule lists of an automaton: one for cells that are
/// `Alive`, one for cells that are `Dead`. Dying cells follow their countdown
/// and consult neither.
#[derive(Debug, PartialEq, Eq)]
pub struct RuleSet {
    pub alive: Vec<Entry>,
    pub dead: Vec<Entry>,
}

/// Mathematical content of a [`RuleSet`].
pub struct RuleSetView {
    pub alive: Seq<(RulesView, Action)>,
    pub dead: Seq<(RulesView, Action)>,
}

impl View for RuleSet {
    type V = RuleSetView;

    open spec fn view(&self) -> RuleSetView {
        RuleSetView { alive: entries_view(self.alive@), dead: entries_view(self.dead@) }
    }
}

impl RuleSetView {
    /// Conway's Game of Life: a live cell with fewer than two or more than
    /// three live neighbours dies, one with two or three lives on, and a dead
    /// cell with exactly three comes alive.
    pub open spec fn conway() -> RuleSetView {
        RuleSetView {
            alive: seq![
                (RulesView::Range(0, 1), Action::Die),
                (RulesView::Range(2, 3), Action::Live),
                (RulesView::Range(4, 8), Action::Die),
            ],
            dead: seq![(RulesView::Singles(seq![3usize]), Action::Live)],
        }
    }

    /// The state of a cell one generation after it was `current` with `count`
    /// live neighbours. A dying cell only counts down; a dead or alive cell
    /// takes what its rule list resolves to.
    pub open spec fn next_state(self, current: Cell, count: int, death: DeathStyle) -> Cell {
        match current {
            Cell::Dying { .. } => current.aged(),
            Cell::Dead => resolve(self.dead, count, current, death),
            Cell::Alive => resolve(self.alive, count, current, death),
        }
    }
}

/// Copies a rule list entry by entry.
fn duplicate_entries(entries: &Vec<Entry>) -> (copy: Vec<Entry>)
    ensures
        entries_view(copy@) == entries_view(entries@),
{
    let mut copy: Vec<Entry> = Vec::new();
    let mut i: usize = 0;
    while i < entries.len()
        invariant
            i <= entries.len(),
            copy@.len() == i,
            forall|j: int| 0 <= j < i ==> (#[trigger] copy@[j]).0@ == entries@[j].0@ && copy@[j].1
                == entries@[j].1,
        decreases entries.len() - i,
    {
        let rule = entries[i].0.duplicate();
        copy.push((rule, entries[i].1));
        i = i + 1;
    }
    assert(entries_view(copy@) =~= entries_view(entries@));
    copy
}

impl RuleSet {
    /// A copy with the same content.
    pub fn duplicate(&self) -> (copy: RuleSet)
        ensures
            copy@ == self@,
    {
        RuleSet { alive: duplicate_entries(&self.alive), dead: duplicate_entries(&self.dead) }
    }

    /// The state of `cell` one generation later, given its live-neighbour count.
    pub fn transition(&self, cell: Cell, alive_neighbors: usize, death: DeathStyle) -> (next: Cell)
        ensures
            next == self@.next_state(cell, alive_neighbors as int, death),
    {
        let mut next = cell;
        match cell {
            Cell::Dying { .. } => {
                next = cell.tick();
            },
            Cell::Dead => {
                apply_first_match(&self.dead, alive_neighbors, &mut next, death);
            },
            Cell::Alive => {
                apply_first_match(&self.alive, alive_neighbors, &mut next, death);
            },
        }
        next
    }
}

impl Default for RuleSet {
    /// Conway's Game of Life.
    fn default() -> (rules: RuleSet)
        ensures
            rules@ == RuleSetView::conway(),
    {
        let mut alive: Vec<Entry> = Vec::new();
        alive.push((Rules::Range(0, 1), Action::Die));
        alive.push((Rules::Range(2, 3), Action::Live));
        alive.push((Rules::Range(4, 8), Action::Die));
        let mut three: Vec<usize> = Vec::new();
        three.push(3);
        let mut dead: Vec<Entry> = Vec::new();
        dead.push((Rules::Singles(three), Action::Live));
        let rules = RuleSet { alive, dead };
        assert(rules@.alive =~= RuleSetView::conway().alive);
        assert(three@ =~= seq![3usize]);
        assert(rules@.dead =~= RuleSetView::conway().dead);
        rules
    }
}

} // verus!
