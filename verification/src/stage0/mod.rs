//! The SPANK plugin side: configuration, per-task state, the data
//! exchanged with the helper command, and the decisions taken at each
//! plugin hook.
use vstd::prelude::*;

pub mod config;
pub mod launch;
pub mod containers;
pub mod iodata;
pub mod state;
pub mod log;
pub mod args;
pub mod dispatch;

verus! {

/// The project's name, used in directory names.
pub const NAME: &'static str = "slurm-oddity";
/// This library's version.
pub const VERSION: &'static str = "0.1.0";
/// The plugin's name.
pub const PLUGIN_NAME: &'static str = "stage0";
/// The helper command's name.
pub const COMMAND_NAME: &'static str = "stage1";
/// The name under which the plugin logs.
pub const APP_NAME: &'static str = "stage0-0.1.0";
/// Where logs go, before expansion.
pub const LOG_PATH: &'static str = "${HOME}/.local/share/slurm-oddity/log";
/// The `chrono` format of the date in log file names.
pub const DATETIME_FORMAT: &'static str = "%Y%m%d";
/// The plugin's log file name on the submitting side, before expansion.
pub const LOCAL_LOG_FILENAME: &'static str = "${DATETIME}_${CLUSTER_NAME}/local_${HOSTNAME}_stage0.log";
/// The plugin's log file name on compute nodes, before expansion.
pub const REMOTE_LOG_FILENAME: &'static str = "${DATETIME}_${CLUSTER_NAME}/job_${SLURM_JOB_ID}/${SLURM_TOPOLOGY_ADDR}_stage0.log";
/// The helper command's log file name on the submitting side, before expansion.
pub const COMMAND_LOCAL_LOG_FILENAME: &'static str = "${DATETIME}_${CLUSTER_NAME}/local_${HOSTNAME}_stage1.log";
/// The helper command's log file name on compute nodes, before expansion.
pub const COMMAND_REMOTE_LOG_FILENAME: &'static str = "${DATETIME}_${CLUSTER_NAME}/job_${SLURM_JOB_ID}/${SLURM_TOPOLOGY_ADDR}_stage1.log";
/// Where per-caller cache directories live, before expansion.
pub const CACHE_PATH: &'static str = "${HOME}/.local/share/slurm-oddity/cache";
/// The variable that carries data from the submitting side to the nodes.
pub const LOCAL2REMOTE_VARNAME: &'static str = "SLURM_STAGE0_LOCAL2REMOTE_DATA";

} // verus!
