//! Decisions of an interactive utility that raises, measures and resets the
//! multimedia timer resolution of the machine.
//!
//! The library holds every rule of the tool: the clamping policy for a period
//! request, the guard decisions taken at startup, the menu grammar, and a
//! session machine that says, state by state, which operating-system call is
//! due next. The calls themselves are made by the program around it, which
//! hands each result back as an event.

pub mod guard;
pub mod menu;
pub mod period;
pub mod session;
