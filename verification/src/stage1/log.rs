//! Where the helper logs.
use vstd::prelude::*;
use crate::envmap::EnvMap;
use crate::expand::{env_expand, spec_env_expand};
use crate::stage0::log::{expand_or, log_filename_env, log_name_env};
use crate::stage1::{LOG_PATH, LOCAL_LOG_FILENAME, NAME, REMOTE_LOG_FILENAME};
use crate::stage1::state::{Context, State};
use crate::text::{join_path, owned, path_join, str_eq};

verus! {

/// The log directory: [`LOG_PATH`] expanded from the job's environment on
/// a node and from the process's elsewhere; `/tmp` when that fails.
pub fn log_dir(context: &Context, job_env: &EnvMap, process_env: &EnvMap) -> (r: String)
    ensures
        r@ == expand_or(LOG_PATH@, if *context is Remote { job_env@ } else { process_env@ }, "/tmp"@),
{
    let expanded = match context {
        Context::Remote => env_expand(LOG_PATH, job_env),
        _ => env_expand(LOG_PATH, process_env),
    };
    match expanded {
        Some(d) => d,
        None => owned("/tmp"),
    }
}

/// The helper's log file: below the log directory, [`LOCAL_LOG_FILENAME`]
/// on the submitting side, expanded from the process's environment, or
/// [`REMOTE_LOG_FILENAME`] on a node, expanded from the job's; both with
/// the date and a default cluster name. The allocator has no log file,
/// and neither has a name that fails to expand.
pub fn set_log_filename(
    context: &Context,
    log_dir: &str,
    job_env: &EnvMap,
    process_env: &EnvMap,
    datetime: &str,
) -> (r: Result<String, String>)
    ensures
        match *context {
            Context::Local => match spec_env_expand(LOCAL_LOG_FILENAME@, log_name_env(process_env@, datetime@)) {
                Some(n) => r matches Ok(p) && p@ == path_join(log_dir@, n),
                None => r matches Err(m) && m@ == "Cannot set log filename for local context"@,
            },
            Context::Remote => match spec_env_expand(REMOTE_LOG_FILENAME@, log_name_env(job_env@, datetime@)) {
                Some(n) => r matches Ok(p) && p@ == path_join(log_dir@, n),
                None => r matches Err(m) && m@ == "Cannot set log filename for remote context"@,
            },
            Context::Allocator => r matches Err(m) && m@ == "Cannot set log filename"@,
        },
{
    match context {
        Context::Local => {
            let env = log_filename_env(process_env, datetime);
            match env_expand(LOCAL_LOG_FILENAME, &env) {
                Some(n) => Ok(join_path(log_dir, n.as_str())),
                None => Err(owned("Cannot set log filename for local context")),
            }
        },
        Context::Remote => {
            let env = log_filename_env(job_env, datetime);
            match env_expand(REMOTE_LOG_FILENAME, &env) {
                Some(n) => Ok(join_path(log_dir, n.as_str())),
                None => Err(owned("Cannot set log filename for remote context")),
            }
        },
        Context::Allocator => Err(owned("Cannot set log filename")),
    }
}

/// The owner and group the log file and its directories are given: the
/// job's user and group on a node, once the job is known; none elsewhere.
pub fn log_owner(state: &State) -> (r: (Option<u32>, Option<u32>))
    ensures
        (state.args.context is Remote && state.job is Some) ==> r == (Some(state.job->0.uid), Some(state.job->0.gid)),
        !(state.args.context is Remote && state.job is Some) ==> r == (None::<u32>, None::<u32>),
{
    match state.args.context {
        Context::Remote => match &state.job {
            Some(j) => (Some(j.uid), Some(j.gid)),
            None => (None, None),
        },
        _ => (None, None),
    }
}

/// What the removal of an empty log file does with a directory above it.
pub enum PruneStep {
    /// Leave it, and stop.
    Stop,
    /// Remove it; then stop when `last`, else go on with its parent.
    Remove { last: bool },
}

/// The step for the directory named `dirname` that holds `entries`
/// entries (`None`: it cannot be listed): only an empty directory is
/// removed, and the one named after the project is the last.
pub fn prune_step(dirname: &str, entries: Option<usize>) -> (r: PruneStep)
    ensures
        entries != Some(0usize) ==> r is Stop,
        entries == Some(0usize) ==> r == (PruneStep::Remove { last: dirname@ == NAME@ }),
{
    match entries {
        Some(0) => PruneStep::Remove { last: str_eq(dirname, NAME) },
        _ => PruneStep::Stop,
    }
}

} // verus!
