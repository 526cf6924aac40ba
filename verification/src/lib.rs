//! Verified core of a controller-and-command bridge for a fighting game:
//! data-file naming, the marker-guarded fetch protocol, controller-state
//! replay, command-to-flag resolution and the per-player game-state table.
use vstd::prelude::*;

pub mod command;
pub mod controlstate;
pub mod fetch;
pub mod gamestate;
pub mod hook;
pub mod paths;

verus! {

} // verus!
