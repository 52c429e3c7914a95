//! The helper command: what it decides for each hook, from the data the
//! plugin hands it.
use vstd::prelude::*;

pub mod json;
pub mod config;
pub mod outside;
pub mod iodata;
pub mod autoupdate;
pub mod state;
pub mod slurmstepd;
pub mod sync;
pub mod podman;
pub mod edf;
pub mod dispatch;
pub mod log;
pub mod jobenv;

verus! {

/// The color of the cat the helper announces.
pub const COLOR: &'static str = "BLUE";
/// The project's name, used in directory and container names.
pub const NAME: &'static str = "slurm-oddity";
/// This library's version.
pub const VERSION: &'static str = "0.1.0";
/// The helper's name.
pub const COMMAND_NAME: &'static str = "stage1";
/// The name under which the helper logs.
pub const APP_NAME: &'static str = "stage1-0.1.0";
/// Where logs go, before expansion.
pub const LOG_PATH: &'static str = "${HOME}/.local/share/slurm-oddity/log";
/// The `chrono` format of the date in log file names.
pub const DATETIME_FORMAT: &'static str = "%Y%m%d";
/// The helper's log file name on the submitting side, before expansion.
pub const LOCAL_LOG_FILENAME: &'static str = "${DATETIME}_${CLUSTER_NAME}/local_${HOSTNAME}_stage1.log";
/// The helper's log file name on compute nodes, before expansion.
pub const REMOTE_LOG_FILENAME: &'static str = "${DATETIME}_${CLUSTER_NAME}/job_${SLURM_JOB_ID}/${HOSTNAME}_stage1.log";
/// Where per-caller cache directories live, before expansion.
pub const CACHE_PATH: &'static str = "${HOME}/.local/share/slurm-oddity/cache";
/// The variable that carries data from the submitting side to the nodes.
pub const LOCAL2REMOTE_VARNAME: &'static str = "SLURM_STAGE0_LOCAL2REMOTE_DATA";
/// The step id Slurm gives a batch script.
pub const SLURM_BATCH_SCRIPT: u32 = 0xfffffffb;

} // verus!
