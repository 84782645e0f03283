//! A two-dimensional cellular automaton with hard edges.
//!
//! Cells are dead, alive, or dying with a countdown. A rule set maps a cell's
//! state and the number of its live neighbours to an action, and the automaton
//! advances a whole grid one generation at a time.

pub mod automaton;
pub mod cell;
pub mod grid;
pub mod neighborhood;
pub mod rules;
