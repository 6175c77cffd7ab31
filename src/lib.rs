//! Merges one pull request once its readiness checks pass.
//!
//! Every cycle evaluates the checks in order and, when all of them pass, asks the
//! host to merge, trying merge methods in turn. The library decides; its caller
//! talks to the host and hands back what it observed.
use vstd::prelude::*;

pub mod config;
pub mod director;
pub mod github;
pub mod merge;
pub mod steps;

pub use config::MergebroConfig;
pub use director::{CycleAction, Director, DirectorState};

verus! {

} // verus!
