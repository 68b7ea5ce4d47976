//! Brewman: the logic of a terminal front end for Homebrew formulae and casks.
//!
//! The library holds the package model, the conversion of `brew info` /
//! `brew outdated` data into that model, the state machine of the user
//! interface, the decisions of the background worker and the text that the
//! screen shows. Terminal drawing, key polling, channels and running `brew`
//! stay in the program around it.
use vstd::prelude::*;

pub mod model;
pub mod text;
pub mod brew;
pub mod app;
pub mod screen;
pub mod laws;

verus! {

} // verus!
