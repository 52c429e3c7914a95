//! Where the plugin logs, and where its errors are reported.
use vstd::prelude::*;
use crate::envmap::EnvMap;
use crate::expand::{env_expand, spec_env_expand};
use crate::stage0::{COMMAND_LOCAL_LOG_FILENAME, COMMAND_REMOTE_LOG_FILENAME, LOG_PATH, LOCAL_LOG_FILENAME, REMOTE_LOG_FILENAME};
use crate::text::{cat, join_path, owned, path_join};

verus! {

/// The context a plugin hook runs in.
pub enum SpankContext {
    Local,
    Remote,
    Allocator,
    Slurmd,
    JobScript,
}

/// Where an error goes.
pub enum ErrorDestination {
    /// To the user's terminal.
    User,
    /// To the log.
    Tracing,
}

/// Errors of hooks that have a user's terminal go there; the others go to
/// the log.
pub fn error_destination(context: SpankContext) -> (r: ErrorDestination)
    ensures
        (r is User) == (context is Local || context is Allocator || context is Remote),
{
    match context {
        SpankContext::Local | SpankContext::Allocator | SpankContext::Remote => ErrorDestination::User,
        SpankContext::Slurmd | SpankContext::JobScript => ErrorDestination::Tracing,
    }
}

/// The messages of an error and of its causes, joined with `: `.
pub open spec fn error_chain(messages: Seq<Seq<char>>) -> Seq<char>
    decreases messages.len(),
{
    if messages.len() <= 1 {
        if messages.len() == 1 { messages[0] } else { Seq::empty() }
    } else {
        error_chain(messages.drop_last()) + ": "@ + messages.last()
    }
}

/// The report of an error: its message, then each cause's, separated by
/// `: `. `messages` holds the error's message first, then its causes'.
pub fn format_error_chain(messages: &Vec<String>) -> (r: String)
    requires
        messages@.len() >= 1,
    ensures
        r@ == error_chain(messages@.map_values(|s: String| s@)),
{
    let ghost all = messages@.map_values(|s: String| s@);
    let mut report = messages[0].clone();
    let mut i: usize = 1;
    assert(all.take(1) =~= seq![all[0]]);
    while i < messages.len()
        invariant
            1 <= i <= messages@.len(),
            all == messages@.map_values(|s: String| s@),
            report@ == error_chain(all.take(i as int)),
        decreases messages.len() - i,
    {
        report.append(": ");
        report.append(messages[i].as_str());
        assert(all.take(i + 1).drop_last() =~= all.take(i as int));
        i = i + 1;
    }
    assert(all.take(messages@.len() as int) =~= all);
    report
}

/// The plugin's former log directory: `cosmodrome` in the home directory.
pub fn get_log_dirpath(home: &str) -> (r: String)
    ensures
        r@ == path_join(home@, "cosmodrome"@),
{
    join_path(home, "cosmodrome")
}

/// `s` expanded from `env`, or `fallback` when a variable is missing.
pub open spec fn expand_or(s: Seq<char>, env: Map<Seq<char>, Seq<char>>, fallback: Seq<char>) -> Seq<char> {
    match spec_env_expand(s, env) {
        Some(e) => e,
        None => fallback,
    }
}

/// The log directory: [`LOG_PATH`] expanded from the job's environment on
/// a node and from the process's elsewhere; `/tmp` when that fails.
pub fn log_dir(context: &SpankContext, job_env: &EnvMap, process_env: &EnvMap) -> (r: String)
    ensures
        r@ == expand_or(LOG_PATH@, if *context is Remote { job_env@ } else { process_env@ }, "/tmp"@),
{
    let expanded = match context {
        SpankContext::Remote => env_expand(LOG_PATH, job_env),
        _ => env_expand(LOG_PATH, process_env),
    };
    match expanded {
        Some(d) => d,
        None => owned("/tmp"),
    }
}

/// `env` with `DATETIME` set to `datetime` and `CLUSTER_NAME` set to
/// `unknown` when absent: the context the log file name is expanded in.
pub open spec fn log_name_env(env: Map<Seq<char>, Seq<char>>, datetime: Seq<char>) -> Map<Seq<char>, Seq<char>> {
    let e = env.insert("DATETIME"@, datetime);
    if e.contains_key("CLUSTER_NAME"@) {
        e
    } else {
        e.insert("CLUSTER_NAME"@, "unknown"@)
    }
}

/// [`log_name_env`], computed on a copy of `env`.
pub fn log_filename_env(env: &EnvMap, datetime: &str) -> (r: EnvMap)
    ensures
        r@ == log_name_env(env@, datetime@),
{
    let mut e = env.duplicate();
    e.insert(owned("DATETIME"), owned(datetime));
    if !e.contains_key("CLUSTER_NAME") {
        e.insert(owned("CLUSTER_NAME"), owned("unknown"));
    }
    e
}

/// The plugin's log file: below the log directory, [`LOCAL_LOG_FILENAME`]
/// on the submitting side, expanded from the process's environment, or
/// [`REMOTE_LOG_FILENAME`] on a node, expanded from the job's; both with
/// the date and a default cluster name (see [`log_name_env`]). Other
/// contexts have no log file, and neither has a name that fails to expand.
pub fn set_log_filename(
    context: &SpankContext,
    log_dir: &str,
    job_env: &EnvMap,
    process_env: &EnvMap,
    datetime: &str,
) -> (r: Result<String, String>)
    ensures
        match *context {
            SpankContext::Local => match spec_env_expand(LOCAL_LOG_FILENAME@, log_name_env(process_env@, datetime@)) {
                Some(n) => r matches Ok(p) && p@ == path_join(log_dir@, n),
                None => r matches Err(m) && m@ == "Cannot set log filename for local context"@,
            },
            SpankContext::Remote => match spec_env_expand(REMOTE_LOG_FILENAME@, log_name_env(job_env@, datetime@)) {
                Some(n) => r matches Ok(p) && p@ == path_join(log_dir@, n),
                None => r matches Err(m) && m@ == "Cannot set log filename for remote context"@,
            },
            _ => r matches Err(m) && m@ == "Cannot set log filename"@,
        },
{
    match context {
        SpankContext::Local => {
            let env = log_filename_env(process_env, datetime);
            match env_expand(LOCAL_LOG_FILENAME, &env) {
                Some(n) => Ok(join_path(log_dir, n.as_str())),
                None => Err(owned("Cannot set log filename for local context")),
            }
        },
        SpankContext::Remote => {
            let env = log_filename_env(job_env, datetime);
            match env_expand(REMOTE_LOG_FILENAME, &env) {
                Some(n) => Ok(join_path(log_dir, n.as_str())),
                None => Err(owned("Cannot set log filename for remote context")),
            }
        },
        _ => Err(owned("Cannot set log filename")),
    }
}

/// The helper's log file, named as the plugin's own (see
/// [`set_log_filename`]) from [`COMMAND_LOCAL_LOG_FILENAME`] and
/// [`COMMAND_REMOTE_LOG_FILENAME`].
pub fn get_command_log_filepath(
    context: &SpankContext,
    log_dir: &str,
    job_env: &EnvMap,
    process_env: &EnvMap,
    datetime: &str,
) -> (r: Result<String, String>)
    ensures
        match *context {
            SpankContext::Local => match spec_env_expand(COMMAND_LOCAL_LOG_FILENAME@, log_name_env(process_env@, datetime@)) {
                Some(n) => r matches Ok(p) && p@ == path_join(log_dir@, n),
                None => r matches Err(m) && m@ == "Cannot set log filename for local context"@,
            },
            SpankContext::Remote => match spec_env_expand(COMMAND_REMOTE_LOG_FILENAME@, log_name_env(job_env@, datetime@)) {
                Some(n) => r matches Ok(p) && p@ == path_join(log_dir@, n),
                None => r matches Err(m) && m@ == "Cannot set log filename for remote context"@,
            },
            _ => r matches Err(m) && m@ == "Cannot set log filename"@,
        },
{
    match context {
        SpankContext::Local => {
            let env = log_filename_env(process_env, datetime);
            match env_expand(COMMAND_LOCAL_LOG_FILENAME, &env) {
                Some(n) => Ok(join_path(log_dir, n.as_str())),
                None => Err(owned("Cannot set log filename for local context")),
            }
        },
        SpankContext::Remote => {
            let env = log_filename_env(job_env, datetime);
            match env_expand(COMMAND_REMOTE_LOG_FILENAME, &env) {
                Some(n) => Ok(join_path(log_dir, n.as_str())),
                None => Err(owned("Cannot set log filename for remote context")),
            }
        },
        _ => Err(owned("Cannot set log filename")),
    }
}

/// Whether a created path must change owner: when a wanted owner or group
/// differs from the path's.
pub fn needs_chown(uid: Option<u32>, gid: Option<u32>, path_uid: u32, path_gid: u32) -> (r: bool)
    ensures
        r == ((uid is Some && uid->0 != path_uid) || (gid is Some && gid->0 != path_gid)),
{
    (uid.is_some() && uid.unwrap() != path_uid) || (gid.is_some() && gid.unwrap() != path_gid)
}

} // verus!
