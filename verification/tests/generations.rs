use cellular_automaton::automaton::{Automaton, ConfigError};
use cellular_automaton::cell::{Action, Cell, DeathStyle};
use cellular_automaton::grid::Grid;
use cellular_automaton::neighborhood::Neighborhood;
use cellular_automaton::rules::{RuleSet, Rules};

fn vertical_blinker() -> Grid {
    vec![vec![Cell::Dead, Cell::Alive, Cell::Dead]; 3]
}

fn horizontal_blinker() -> Grid {
    vec![
        vec![Cell::Dead, Cell::Dead, Cell::Dead],
        vec![Cell::Alive, Cell::Alive, Cell::Alive],
        vec![Cell::Dead, Cell::Dead, Cell::Dead],
    ]
}

#[test]
fn primitive_test_1() {
    let grid = vec![vec![Cell::Dead, Cell::Alive, Cell::Dead]; 3];
    let mut automaton = Automaton::builder()
        .row_count(3)
        .col_count(3)
        .grid(grid.clone())
        .build()
        .unwrap();

    assert_eq!(*automaton.next().unwrap().grid(), grid);
    assert_ne!(*automaton.next().unwrap().grid(), grid);
    assert_eq!(*automaton.next().unwrap().grid(), grid);
}

#[test]
#[should_panic]
fn primitive_test_2() {
    let grid = vec![vec![Cell::Dead, Cell::Alive, Cell::Dead]; 3];
    let mut automaton = Automaton::builder()
        .row_count(3)
        .col_count(3)
        .grid(grid.clone())
        .build()
        .unwrap();

    assert_eq!(*automaton.next().unwrap().grid(), grid);
    assert_eq!(*automaton.next().unwrap().grid(), grid);
}

#[test]
fn blinker_has_period_two() {
    let mut automaton = Automaton::builder()
        .row_count(3)
        .col_count(3)
        .grid(vertical_blinker())
        .neighborhood_type(Neighborhood::Moore)
        .rule_set(RuleSet::default())
        .build()
        .unwrap();
    assert_eq!(automaton.generation(), 0);
    assert_eq!(*automaton.grid(), vertical_blinker());

    automaton.next().unwrap();
    assert_eq!(automaton.generation(), 1);
    assert_eq!(*automaton.grid(), horizontal_blinker());

    automaton.next().unwrap();
    assert_eq!(automaton.generation(), 2);
    assert_eq!(*automaton.grid(), vertical_blinker());
}

#[test]
fn snapshot_shows_grid_before_the_step() {
    let mut automaton = Automaton::builder()
        .row_count(3)
        .col_count(3)
        .grid(vertical_blinker())
        .build()
        .unwrap();
    let first = automaton.next().unwrap();
    assert_eq!(first.generation(), 1);
    assert_eq!(*first.grid(), vertical_blinker());
    assert_eq!(first.row_count(), 3);
    assert_eq!(first.col_count(), 3);
    assert_eq!(first.neighborhood_type(), Neighborhood::Moore);
    assert_eq!(*first.rule_set(), RuleSet::default());
    assert_eq!(first.death_style(), DeathStyle::Immediate);
    assert!(!first.halt_when_extinct());
    let second = automaton.next().unwrap();
    assert_eq!(second.generation(), 2);
    assert_eq!(*second.grid(), horizontal_blinker());
}

#[test]
fn generation_goes_up_by_one_per_snapshot() {
    let mut automaton = Automaton::builder()
        .row_count(4)
        .col_count(5)
        .live_odds(1, 3)
        .build()
        .unwrap();
    for expected in 1..=25usize {
        let snapshot = automaton.next().unwrap();
        assert_eq!(snapshot.generation(), expected);
        assert_eq!(automaton.generation(), expected);
    }
}

#[test]
fn countdown_death_passes_through_dying() {
    let mut automaton = Automaton::builder()
        .row_count(1)
        .col_count(1)
        .grid(vec![vec![Cell::Alive]])
        .death_style(DeathStyle::Countdown { ticks: 3 })
        .build()
        .unwrap();
    automaton.next().unwrap();
    assert_eq!(*automaton.grid(), vec![vec![Cell::Dying { ticks_till_death: 3 }]]);
    automaton.next().unwrap();
    assert_eq!(*automaton.grid(), vec![vec![Cell::Dying { ticks_till_death: 2 }]]);
    automaton.next().unwrap();
    assert_eq!(*automaton.grid(), vec![vec![Cell::Dying { ticks_till_death: 1 }]]);
    automaton.next().unwrap();
    assert_eq!(*automaton.grid(), vec![vec![Cell::Dead]]);
    automaton.next().unwrap();
    assert_eq!(*automaton.grid(), vec![vec![Cell::Dead]]);
}

#[test]
fn immediate_death_skips_dying() {
    let mut automaton = Automaton::builder()
        .row_count(1)
        .col_count(1)
        .grid(vec![vec![Cell::Alive]])
        .build()
        .unwrap();
    automaton.next().unwrap();
    assert_eq!(*automaton.grid(), vec![vec![Cell::Dead]]);
}

#[test]
fn dying_cells_count_as_live_neighbors() {
    // The middle cell has two neighbours that are dying, so it survives.
    let grid = vec![vec![
        Cell::Dying { ticks_till_death: 2 },
        Cell::Alive,
        Cell::Dying { ticks_till_death: 1 },
    ]];
    let mut automaton =
        Automaton::builder().row_count(1).col_count(3).grid(grid).build().unwrap();
    automaton.next().unwrap();
    assert_eq!(
        *automaton.grid(),
        vec![vec![Cell::Dying { ticks_till_death: 1 }, Cell::Alive, Cell::Dead]]
    );
}

#[test]
fn dying_cell_ignores_rules_and_neighbors() {
    let always_live = RuleSet {
        alive: vec![(Rules::Range(0, 8), Action::Live)],
        dead: vec![(Rules::Range(0, 8), Action::Live)],
    };
    let grid = vec![
        vec![Cell::Alive, Cell::Alive, Cell::Alive],
        vec![Cell::Alive, Cell::Dying { ticks_till_death: 5 }, Cell::Alive],
        vec![Cell::Alive, Cell::Dying { ticks_till_death: 1 }, Cell::Alive],
    ];
    let mut automaton = Automaton::builder()
        .row_count(3)
        .col_count(3)
        .grid(grid)
        .rule_set(always_live)
        .build()
        .unwrap();
    automaton.next().unwrap();
    assert_eq!(automaton.grid()[1][1], Cell::Dying { ticks_till_death: 4 });
    assert_eq!(automaton.grid()[2][1], Cell::Dead);
    automaton.next().unwrap();
    assert_eq!(automaton.grid()[1][1], Cell::Dying { ticks_till_death: 3 });
    assert_eq!(automaton.grid()[2][1], Cell::Alive);
}

#[test]
fn all_dead_grid_stays_all_dead() {
    let dead = vec![vec![Cell::Dead; 4]; 3];
    let mut automaton =
        Automaton::builder().row_count(3).col_count(4).grid(dead.clone()).build().unwrap();
    for _ in 0..5 {
        let snapshot = automaton.next().unwrap();
        assert_eq!(*snapshot.grid(), dead);
        assert_eq!(*automaton.grid(), dead);
    }
}

#[test]
fn all_dead_grid_wakes_when_a_dead_rule_holds_for_zero() {
    let rules = RuleSet { alive: vec![], dead: vec![(Rules::Singles(vec![0]), Action::Live)] };
    let mut automaton = Automaton::builder()
        .row_count(2)
        .col_count(2)
        .grid(vec![vec![Cell::Dead; 2]; 2])
        .rule_set(rules)
        .build()
        .unwrap();
    automaton.next().unwrap();
    assert_eq!(*automaton.grid(), vec![vec![Cell::Alive; 2]; 2]);
}

#[test]
fn no_dead_rules_means_no_births() {
    let rules = RuleSet { alive: vec![(Rules::Range(0, 1), Action::Die)], dead: vec![] };
    let grid = vec![
        vec![Cell::Alive, Cell::Alive, Cell::Dead],
        vec![Cell::Alive, Cell::Dead, Cell::Dead],
        vec![Cell::Dead, Cell::Dead, Cell::Alive],
    ];
    let mut automaton = Automaton::builder()
        .row_count(3)
        .col_count(3)
        .grid(grid.clone())
        .rule_set(rules)
        .build()
        .unwrap();
    let mut before = grid;
    for _ in 0..6 {
        automaton.next().unwrap();
        let after = automaton.grid().clone();
        for r in 0..3 {
            for c in 0..3 {
                if before[r][c] == Cell::Dead {
                    assert_eq!(after[r][c], Cell::Dead);
                }
            }
        }
        before = after;
    }
    assert_eq!(
        before,
        vec![
            vec![Cell::Alive, Cell::Alive, Cell::Dead],
            vec![Cell::Alive, Cell::Dead, Cell::Dead],
            vec![Cell::Dead, Cell::Dead, Cell::Dead],
        ]
    );
}

#[test]
fn halting_ends_the_sequence_for_good() {
    let mut automaton = Automaton::builder()
        .row_count(1)
        .col_count(2)
        .grid(vec![vec![Cell::Alive, Cell::Dead]])
        .halt_when_extinct(true)
        .build()
        .unwrap();
    let first = automaton.next().unwrap();
    assert_eq!(*first.grid(), vec![vec![Cell::Alive, Cell::Dead]]);
    assert_eq!(*automaton.grid(), vec![vec![Cell::Dead, Cell::Dead]]);
    assert!(automaton.next().is_none());
    assert!(automaton.next().is_none());
    assert_eq!(automaton.generation(), 1);
    assert_eq!(*automaton.grid(), vec![vec![Cell::Dead, Cell::Dead]]);
}

#[test]
fn without_halting_an_extinct_grid_goes_on() {
    let mut automaton = Automaton::builder()
        .row_count(1)
        .col_count(2)
        .grid(vec![vec![Cell::Dead, Cell::Dead]])
        .build()
        .unwrap();
    for expected in 1..=4usize {
        assert_eq!(automaton.next().unwrap().generation(), expected);
    }
}

#[test]
fn von_neumann_ignores_diagonals() {
    // Under Moore the centre has three live neighbours and is born; under
    // von Neumann it has only one, on its edge.
    let grid = vec![
        vec![Cell::Alive, Cell::Alive, Cell::Dead],
        vec![Cell::Dead, Cell::Dead, Cell::Dead],
        vec![Cell::Dead, Cell::Dead, Cell::Alive],
    ];
    let mut moore =
        Automaton::builder().row_count(3).col_count(3).grid(grid.clone()).build().unwrap();
    moore.next().unwrap();
    assert_eq!(moore.grid()[1][1], Cell::Alive);

    let mut von_neumann = Automaton::builder()
        .row_count(3)
        .col_count(3)
        .grid(grid)
        .neighborhood_type(Neighborhood::VonNeumann)
        .build()
        .unwrap();
    von_neumann.next().unwrap();
    assert_eq!(von_neumann.grid()[1][1], Cell::Dead);
}

#[test]
fn edges_do_not_wrap_around() {
    // On a torus the three live cells of the left column would be the
    // neighbours of the right column.
    let grid = vec![
        vec![Cell::Alive, Cell::Dead, Cell::Dead, Cell::Dead],
        vec![Cell::Alive, Cell::Dead, Cell::Dead, Cell::Dead],
        vec![Cell::Alive, Cell::Dead, Cell::Dead, Cell::Dead],
    ];
    let mut automaton =
        Automaton::builder().row_count(3).col_count(4).grid(grid).build().unwrap();
    automaton.next().unwrap();
    assert_eq!(
        *automaton.grid(),
        vec![
            vec![Cell::Dead, Cell::Dead, Cell::Dead, Cell::Dead],
            vec![Cell::Alive, Cell::Alive, Cell::Dead, Cell::Dead],
            vec![Cell::Dead, Cell::Dead, Cell::Dead, Cell::Dead],
        ]
    );
}

#[test]
fn new_reports_each_error() {
    let build = |rows: usize, cols: usize, grid: Grid, death: DeathStyle| {
        Automaton::new(rows, cols, grid, Neighborhood::Moore, RuleSet::default(), death, false)
            .map(|_| ())
    };
    let good = vec![vec![Cell::Dead; 2]; 2];
    assert_eq!(build(2, 2, good.clone(), DeathStyle::Immediate), Ok(()));
    assert_eq!(build(0, 2, good.clone(), DeathStyle::Immediate), Err(ConfigError::ZeroRows));
    assert_eq!(build(2, 0, good.clone(), DeathStyle::Immediate), Err(ConfigError::ZeroCols));
    assert_eq!(build(0, 0, vec![], DeathStyle::Immediate), Err(ConfigError::ZeroRows));
    assert_eq!(
        build(2, 2, good.clone(), DeathStyle::Countdown { ticks: 0 }),
        Err(ConfigError::ZeroCountdown)
    );
    assert_eq!(build(2, 2, good.clone(), DeathStyle::Countdown { ticks: 1 }), Ok(()));
    assert_eq!(
        build(3, 2, good.clone(), DeathStyle::Immediate),
        Err(ConfigError::RowCountMismatch)
    );
    assert_eq!(
        build(2, 3, good.clone(), DeathStyle::Immediate),
        Err(ConfigError::ColCountMismatch)
    );
    let jagged = vec![vec![Cell::Dead; 2], vec![Cell::Dead; 1]];
    assert_eq!(build(2, 2, jagged, DeathStyle::Immediate), Err(ConfigError::ColCountMismatch));
    let expired = vec![vec![Cell::Dead, Cell::Dying { ticks_till_death: 0 }]];
    assert_eq!(build(1, 2, expired, DeathStyle::Immediate), Err(ConfigError::ExpiredCell));
    let dying = vec![vec![Cell::Dead, Cell::Dying { ticks_till_death: 1 }]];
    assert_eq!(build(1, 2, dying, DeathStyle::Immediate), Ok(()));
}

#[test]
fn builder_reports_invalid_odds() {
    let zero_denominator = Automaton::builder().live_odds(0, 0).build().map(|_| ());
    assert_eq!(zero_denominator, Err(ConfigError::InvalidOdds));
    let above_one = Automaton::builder().live_odds(3, 2).build().map(|_| ());
    assert_eq!(above_one, Err(ConfigError::InvalidOdds));
    // With a grid given the odds are never used.
    let unused = Automaton::builder()
        .row_count(1)
        .col_count(1)
        .grid(vec![vec![Cell::Alive]])
        .live_odds(3, 2)
        .build()
        .map(|_| ());
    assert_eq!(unused, Ok(()));
    let zero_rows = Automaton::builder().row_count(0).live_odds(3, 2).build().map(|_| ());
    assert_eq!(zero_rows, Err(ConfigError::ZeroRows));
}

#[test]
fn builder_defaults() {
    let automaton = Automaton::builder().build().unwrap();
    assert_eq!(automaton.generation(), 0);
    assert_eq!(automaton.row_count(), 20);
    assert_eq!(automaton.col_count(), 20);
    assert_eq!(automaton.neighborhood_type(), Neighborhood::Moore);
    assert_eq!(*automaton.rule_set(), RuleSet::default());
    assert_eq!(automaton.death_style(), DeathStyle::Immediate);
    assert!(!automaton.halt_when_extinct());
    assert_eq!(automaton.grid().len(), 20);
    for row in automaton.grid() {
        assert_eq!(row.len(), 20);
        for cell in row {
            assert!(matches!(cell, Cell::Alive | Cell::Dead));
        }
    }
}

#[test]
fn default_automaton_is_twenty_by_twenty() {
    let automaton = Automaton::default();
    assert_eq!(automaton.generation(), 0);
    assert_eq!(automaton.row_count(), 20);
    assert_eq!(automaton.col_count(), 20);
    assert_eq!(automaton.grid().len(), 20);
    assert!(automaton.grid().iter().all(|row| row.len() == 20));
    assert!(automaton.grid().iter().flatten().all(|cell| !cell.is_dying()));
}

#[test]
fn certain_odds_give_certain_populations() {
    let full = Automaton::random_population_with_odds(3, 4, 5, 5);
    assert_eq!(full, vec![vec![Cell::Alive; 4]; 3]);
    let empty = Automaton::random_population_with_odds(3, 4, 0, 5);
    assert_eq!(empty, vec![vec![Cell::Dead; 4]; 3]);
    assert_eq!(Automaton::random_cell_with_odds(1, 1), Cell::Alive);
    assert_eq!(Automaton::random_cell_with_odds(0, 1), Cell::Dead);
    let built = Automaton::builder().row_count(2).col_count(2).live_odds(7, 7).build().unwrap();
    assert_eq!(*built.grid(), vec![vec![Cell::Alive; 2]; 2]);
}

#[test]
fn random_population_has_the_shape_asked_for() {
    let grid = Automaton::random_population(5, 7);
    assert_eq!(grid.len(), 5);
    for row in &grid {
        assert_eq!(row.len(), 7);
        for cell in row {
            assert!(cell.is_dead() || *cell == Cell::Alive);
        }
    }
    assert_eq!(Automaton::random_population(0, 7), Vec::<Vec<Cell>>::new());
    assert_eq!(Automaton::random_population(2, 0), vec![Vec::<Cell>::new(); 2]);
    let cell = Automaton::random_cell();
    assert!(matches!(cell, Cell::Alive | Cell::Dead));
}

#[test]
fn random_population_is_not_constant() {
    // 400 even coin flips that all agree would be a one in 2^399 event.
    let grid = Automaton::random_population(20, 20);
    let alive = grid.iter().flatten().filter(|cell| cell.is_alive()).count();
    assert!(alive > 0);
    assert!(alive < 400);
}
