//! A small command-line status reporter: its configuration model, the choice
//! of output format, how a configuration is resolved, and the reports it prints.
use vstd::prelude::*;

pub mod checks;
pub mod config;
pub mod error;
pub mod report;
pub mod run;

verus! {

} // verus!
