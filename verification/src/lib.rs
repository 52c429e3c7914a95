//! Verified core of the slurm-oddity container launcher.
use vstd::prelude::*;

pub mod text;
pub mod envmap;
pub mod expand;
pub mod stage0;
pub mod stage1;

verus! {
} // verus!
