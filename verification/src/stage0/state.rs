//! What the plugin knows of the job and the caller across hooks.
use vstd::prelude::*;
use crate::envmap::EnvMap;
use crate::expand::{env_expand, opt_view, spec_env_expand};
use crate::stage0::{CACHE_PATH, LOCAL2REMOTE_VARNAME};
use crate::stage0::log::get_log_dirpath;
use crate::stage0::containers::{first_index, lemma_first_index_is};
use crate::text::{cat, cat3, chars_of, dec, int_dec, i32_to_dec, join_path, owned, parse_u32, parse_unsigned, path_join, str_eq, string_of_chars, u32_to_dec};

verus! {

/// The plugin's state.
pub struct Stage0State {
    pub enabled: bool,
    pub old_uid: Option<u32>,
    pub old_gid: Option<u32>,
    pub stage0_logdir_path: Option<String>,
    pub username: Option<String>,
    pub uid: Option<u32>,
    pub gid: Option<u32>,
    pub jobid: Option<String>,
    pub caller_id: Option<String>,
    pub job_arg: Vec<String>,
    pub job_env: EnvMap,
}

impl Stage0State {
    /// The state before any hook: enabled, knowing nothing.
    pub fn default() -> (r: Stage0State)
        ensures
            r.enabled,
            r.old_uid is None && r.old_gid is None,
            r.stage0_logdir_path is None,
            r.username is None,
            r.uid is None && r.gid is None,
            r.jobid is None,
            r.caller_id is None,
            r.job_arg@.len() == 0,
            r.job_env@ == Map::<Seq<char>, Seq<char>>::empty(),
    {
        Stage0State {
            enabled: true,
            old_uid: None,
            old_gid: None,
            stage0_logdir_path: None,
            username: None,
            uid: None,
            gid: None,
            jobid: None,
            caller_id: None,
            job_arg: Vec::new(),
            job_env: EnvMap::new(),
        }
    }
}

/// The task's number on its node: `SLURM_LOCALID` of the job's
/// environment, or `u32::MAX` when it is missing or not a number.
pub open spec fn local_task_id_spec(env: Map<Seq<char>, Seq<char>>) -> u32 {
    if env.contains_key("SLURM_LOCALID"@) {
        match parse_unsigned(env["SLURM_LOCALID"@], u32::MAX as nat) {
            Some(v) => v as u32,
            None => u32::MAX,
        }
    } else {
        u32::MAX
    }
}

/// The task's number on its node (see [`local_task_id_spec`]).
pub fn get_local_task_id(state: &Stage0State) -> (r: u32)
    ensures
        r == local_task_id_spec(state.job_env@),
{
    match state.job_env.get("SLURM_LOCALID") {
        None => u32::MAX,
        Some(id) => match parse_u32(id.as_str()) {
            Some(num) => num,
            None => u32::MAX,
        },
    }
}

/// The host name, or `unknown_hostname` when it cannot be read as text.
pub open spec fn host_or_unknown(hostname: Option<Seq<char>>) -> Seq<char> {
    match hostname {
        Some(h) => h,
        None => "unknown_hostname"@,
    }
}

fn host_name(hostname: &Option<String>) -> (r: String)
    ensures
        r@ == host_or_unknown(match hostname {
            Some(h) => Some(h@),
            None => None,
        }),
{
    match hostname {
        Some(h) => h.clone(),
        None => owned("unknown_hostname"),
    }
}

/// Who calls, on the submitting side: `<host>_pid_<pid>`.
pub fn local_caller_id(hostname: &Option<String>, pid: u32) -> (r: String)
    ensures
        r@ == host_or_unknown(match hostname {
            Some(h) => Some(h@),
            None => None,
        }) + "_pid_"@ + dec(pid as nat),
{
    let h = host_name(hostname);
    let d = u32_to_dec(pid);
    cat3(h.as_str(), "_pid_", d.as_str())
}

/// Who calls, on a node: `<host>_job_<job>` (`unknown` without a job id),
/// then `_step_<step>` and `_task_<task>` when they are known.
pub open spec fn remote_caller_id_spec(
    hostname: Option<Seq<char>>,
    job_id: Option<u32>,
    step_id: Option<u32>,
    task_id: Option<i32>,
) -> Seq<char> {
    host_or_unknown(hostname) + "_job_"@ + match job_id {
        Some(j) => dec(j as nat),
        None => "unknown"@,
    } + match step_id {
        Some(s) => "_step_"@ + dec(s as nat),
        None => Seq::empty(),
    } + match task_id {
        Some(t) => "_task_"@ + int_dec(t as int),
        None => Seq::empty(),
    }
}

/// Who calls, on a node (see [`remote_caller_id_spec`]).
pub fn remote_caller_id(
    hostname: &Option<String>,
    job_id: Option<u32>,
    step_id: Option<u32>,
    task_id: Option<i32>,
) -> (r: String)
    ensures
        r@ == remote_caller_id_spec(
            match hostname {
                Some(h) => Some(h@),
                None => None,
            },
            job_id,
            step_id,
            task_id,
        ),
{
    let h = host_name(hostname);
    let mut value = cat(h.as_str(), "_job_");
    match job_id {
        Some(j) => {
            let d = u32_to_dec(j);
            value.append(d.as_str());
        },
        None => {
            value.append("unknown");
        },
    }
    let ghost v1 = value@;
    match step_id {
        Some(s) => {
            let d = u32_to_dec(s);
            value.append("_step_");
            value.append(d.as_str());
        },
        None => {
            assert(value@ =~= v1 + Seq::<char>::empty());
        },
    }
    let ghost v2 = value@;
    match task_id {
        Some(t) => {
            let d = i32_to_dec(t);
            value.append("_task_");
            value.append(d.as_str());
        },
        None => {
            assert(value@ =~= v2 + Seq::<char>::empty());
        },
    }
    value
}

/// The log directory on a node, from the value the submitting side left
/// (`SLURM_STAGE0_LOGDIR`): none when it is `None`, else that directory,
/// with `job_<id>` below it when the job id is known.
pub fn remote_logdir(value: &str, jobid: &Option<String>) -> (r: Option<String>)
    ensures
        value@ == "None"@ ==> r is None,
        value@ != "None"@ ==> (r matches Some(p) && p@ == match jobid {
            Some(j) => path_join(value@, "job_"@ + j@),
            None => value@,
        }),
{
    if str_eq(value, "None") {
        return None;
    }
    match jobid {
        Some(j) => {
            let dirname = cat("job_", j.as_str());
            Some(join_path(value, dirname.as_str()))
        },
        None => Some(owned(value)),
    }
}

/// A value passed on from the submitting side: none when it is `None`.
pub fn passed_value(value: &str) -> (r: Option<String>)
    ensures
        value@ == "None"@ ==> r is None,
        value@ != "None"@ ==> (r matches Some(s) && s@ == value@),
{
    if str_eq(value, "None") {
        None
    } else {
        Some(owned(value))
    }
}

/// The caller's cache directory: [`CACHE_PATH`] expanded from the job's
/// environment (from `process_env` while the job's is empty), then the
/// caller id below it; the empty text when the caller is unknown; `None`
/// when the expansion fails.
pub fn get_cache_dir_path(state: &Stage0State, process_env: &EnvMap) -> (r: Option<String>)
    ensures
        ({
            let env = if state.job_env@ == Map::<Seq<char>, Seq<char>>::empty() { process_env@ } else { state.job_env@ };
            match spec_env_expand(CACHE_PATH@, env) {
                None => r is None,
                Some(p) => r matches Some(d) && d@ == match state.caller_id {
                    Some(c) => p + "/"@ + c@,
                    None => ""@,
                },
            }
        }),
{
    let expanded = if state.job_env.len() == 0 {
        env_expand(CACHE_PATH, process_env)
    } else {
        env_expand(CACHE_PATH, &state.job_env)
    };
    let cache_path = match expanded {
        Some(p) => p,
        None => {
            return None;
        },
    };
    match &state.caller_id {
        Some(c) => Some(cat3(cache_path.as_str(), "/", c.as_str())),
        None => Some(owned("")),
    }
}


/// A change the plugin makes to its own environment: the variable, and
/// the value to set, or none to remove it.
pub struct VarChange {
    pub name: String,
    pub value: Option<String>,
}

/// A change as plain text.
pub open spec fn change_view(c: VarChange) -> (Seq<char>, Option<Seq<char>>) {
    (c.name@, match c.value {
        Some(v) => Some(v@),
        None => None,
    })
}

/// Changes as plain text, in order.
pub open spec fn changes_view(v: Seq<VarChange>) -> Seq<(Seq<char>, Option<Seq<char>>)> {
    v.map_values(|c: VarChange| change_view(c))
}

/// A value the submitting side passed on: none when it is `None`.
pub open spec fn passed(value: Seq<char>) -> Option<Seq<char>> {
    if value == "None"@ {
        None
    } else {
        Some(value)
    }
}

/// The log directory on a node from the value passed on and the job id
/// (see [`remote_logdir`]).
pub open spec fn remote_logdir_of(value: Seq<char>, jobid: Option<Seq<char>>) -> Option<Seq<char>> {
    if value == "None"@ {
        None
    } else {
        Some(match jobid {
            Some(j) => path_join(value, "job_"@ + j),
            None => value,
        })
    }
}

/// The decimal notation of a number that may be unknown.
pub open spec fn opt_dec(n: Option<u32>) -> Option<Seq<char>> {
    match n {
        Some(v) => Some(dec(v as nat)),
        None => None,
    }
}

fn opt_dec_exec(n: Option<u32>) -> (r: Option<String>)
    ensures
        match r {
            Some(s) => opt_dec(n) == Some(s@),
            None => opt_dec(n) is None,
        },
{
    match n {
        Some(v) => Some(u32_to_dec(v)),
        None => None,
    }
}

fn change(name: &str, value: Option<String>) -> (r: VarChange)
    ensures
        change_view(r) == (name@, match value {
            Some(v) => Some(v@),
            None => None::<Seq<char>>,
        }),
{
    VarChange { name: owned(name), value }
}

/// What a node learns from Slurm and from the submitting side: the job,
/// step and task ids and the job's user and group where Slurm knows them,
/// the values passed on (`None` where there is none), the host name where
/// it is text, and the job's arguments and environment.
pub struct RemoteFacts {
    pub job_id: Option<u32>,
    pub step_id: Option<u32>,
    pub task_id: Option<i32>,
    pub uid: Option<u32>,
    pub gid: Option<u32>,
    pub logdir: String,
    pub username: String,
    pub local2remote: String,
    pub hostname: Option<String>,
    pub job_arg: Vec<String>,
    pub job_env: EnvMap,
}

/// The host name of the facts as plain text.
pub open spec fn facts_host(f: RemoteFacts) -> Option<Seq<char>> {
    match f.hostname {
        Some(h) => Some(h@),
        None => None,
    }
}

/// The environment changes a node makes, in order: the job id, the log
/// directory, the user name, the job's user and group, the caller id and
/// the data passed on; each removed where it is unknown.
pub open spec fn remote_changes(f: RemoteFacts) -> Seq<(Seq<char>, Option<Seq<char>>)> {
    seq![
        ("SLURM_STAGE0_JOBID"@, opt_dec(f.job_id)),
        ("SLURM_STAGE0_LOGDIR"@, remote_logdir_of(f.logdir@, opt_dec(f.job_id))),
        ("SLURM_STAGE0_USERNAME"@, passed(f.username@)),
        ("SLURM_STAGE0_UID"@, opt_dec(f.uid)),
        ("SLURM_STAGE0_GID"@, opt_dec(f.gid)),
        ("SLURM_STAGE0_CALLER_ID"@, Some(remote_caller_id_spec(facts_host(f), f.job_id, f.step_id, f.task_id))),
        (LOCAL2REMOTE_VARNAME@, passed(f.local2remote@)),
    ]
}

/// Loads the state on a node from what it learns (see [`RemoteFacts`])
/// and returns the changes to make to the environment (see
/// [`remote_changes`]). The job id must be known.
pub fn remote_load_state(state: &mut Stage0State, facts: RemoteFacts) -> (r: Vec<VarChange>)
    requires
        facts.job_id is Some,
    ensures
        changes_view(r@) == remote_changes(facts),
        final(state).enabled == old(state).enabled,
        final(state).old_uid == old(state).old_uid,
        final(state).old_gid == old(state).old_gid,
        opt_view(final(state).jobid) == opt_dec(facts.job_id),
        opt_view(final(state).stage0_logdir_path) == remote_logdir_of(facts.logdir@, opt_dec(facts.job_id)),
        opt_view(final(state).username) == passed(facts.username@),
        final(state).uid == facts.uid,
        final(state).gid == facts.gid,
        opt_view(final(state).caller_id)
            == Some(remote_caller_id_spec(facts_host(facts), facts.job_id, facts.step_id, facts.task_id)),
        final(state).job_arg == facts.job_arg,
        final(state).job_env@ == facts.job_env@,
{
    let mut v: Vec<VarChange> = Vec::new();
    let jobid = opt_dec_exec(facts.job_id);
    state.jobid = jobid.clone();
    v.push(change("SLURM_STAGE0_JOBID", jobid));

    let logdir = remote_logdir(facts.logdir.as_str(), &state.jobid);
    state.stage0_logdir_path = logdir.clone();
    v.push(change("SLURM_STAGE0_LOGDIR", logdir));

    let username = passed_value(facts.username.as_str());
    state.username = username.clone();
    v.push(change("SLURM_STAGE0_USERNAME", username));

    state.uid = facts.uid;
    v.push(change("SLURM_STAGE0_UID", opt_dec_exec(facts.uid)));
    state.gid = facts.gid;
    v.push(change("SLURM_STAGE0_GID", opt_dec_exec(facts.gid)));

    let caller = remote_caller_id(&facts.hostname, facts.job_id, facts.step_id, facts.task_id);
    state.caller_id = Some(caller.clone());
    v.push(change("SLURM_STAGE0_CALLER_ID", Some(caller)));

    v.push(change(LOCAL2REMOTE_VARNAME, passed_value(facts.local2remote.as_str())));

    state.job_arg = facts.job_arg;
    state.job_env = facts.job_env;
    assert(changes_view(v@) =~= remote_changes(facts));
    v
}

/// Loads the state on the submitting side: the log directory below the
/// user's home, the user's name and the caller id of this process; the
/// three variables are set to them, in that order.
pub fn local_load_state(state: &mut Stage0State, home: &str, username: String, hostname: &Option<String>, pid: u32)
    -> (r: Vec<VarChange>)
    ensures
        changes_view(r@) == seq![
            ("SLURM_STAGE0_LOGDIR"@, Some(path_join(home@, "cosmodrome"@))),
            ("SLURM_STAGE0_USERNAME"@, Some(username@)),
            ("SLURM_STAGE0_CALLER_ID"@, Some(host_or_unknown(match hostname {
                Some(h) => Some(h@),
                None => None,
            }) + "_pid_"@ + dec(pid as nat))),
        ],
        opt_view(final(state).stage0_logdir_path) == Some(path_join(home@, "cosmodrome"@)),
        opt_view(final(state).username) == Some(username@),
        opt_view(final(state).caller_id) == Some(host_or_unknown(match hostname {
            Some(h) => Some(h@),
            None => None,
        }) + "_pid_"@ + dec(pid as nat)),
        final(state).enabled == old(state).enabled,
        final(state).old_uid == old(state).old_uid,
        final(state).old_gid == old(state).old_gid,
        final(state).uid == old(state).uid,
        final(state).gid == old(state).gid,
        final(state).jobid == old(state).jobid,
        final(state).job_arg == old(state).job_arg,
        final(state).job_env@ == old(state).job_env@,
{
    let mut v: Vec<VarChange> = Vec::new();
    let logdir = get_log_dirpath(home);
    state.stage0_logdir_path = Some(logdir.clone());
    v.push(change("SLURM_STAGE0_LOGDIR", Some(logdir)));
    state.username = Some(username.clone());
    v.push(change("SLURM_STAGE0_USERNAME", Some(username)));
    let caller = local_caller_id(hostname, pid);
    state.caller_id = Some(caller.clone());
    v.push(change("SLURM_STAGE0_CALLER_ID", Some(caller)));
    proof {
        let ghost expected = seq![
            ("SLURM_STAGE0_LOGDIR"@, Some(path_join(home@, "cosmodrome"@))),
            ("SLURM_STAGE0_USERNAME"@, Some(username@)),
            ("SLURM_STAGE0_CALLER_ID"@, Some(host_or_unknown(match hostname {
                Some(h) => Some(h@),
                None => None,
            }) + "_pid_"@ + dec(pid as nat))),
        ];
        assert(changes_view(v@) =~= expected);
    }
    v
}


/// The `n`-th field (from 0) of `s` split at every `sep`, as
/// `s.split(sep)` yields it; none when there are fewer fields.
pub open spec fn nth_field(s: Seq<char>, sep: char, n: nat) -> Option<Seq<char>>
    decreases n,
{
    let i = first_index(s, sep);
    if n == 0 {
        Some(s.take(i))
    } else if i < s.len() {
        nth_field(s.skip(i + 1), sep, (n - 1) as nat)
    } else {
        None
    }
}

/// The `n`-th field of `s` split at `sep` (see [`nth_field`]).
pub fn split_field(s: &str, sep: char, n: usize) -> (r: Option<String>)
    ensures
        match nth_field(s@, sep, n as nat) {
            Some(f) => r matches Some(t) && t@ == f,
            None => r is None,
        },
{
    let cs = chars_of(s);
    let mut p: usize = 0;
    let mut m: usize = n;
    assert(s@.skip(0) =~= s@);
    loop
        invariant
            cs@ == s@,
            p <= cs@.len(),
            m <= n,
            nth_field(s@, sep, n as nat) == nth_field(s@.skip(p as int), sep, m as nat),
        decreases cs@.len() - p,
    {
        let ghost rest = s@.skip(p as int);
        let mut i: usize = p;
        while i < cs.len() && cs[i] != sep
            invariant
                cs@ == s@,
                p <= i <= cs@.len(),
                rest == s@.skip(p as int),
                forall|q: int| p <= q < i ==> cs@[q] != sep,
            decreases cs.len() - i,
        {
            i = i + 1;
        }
        proof {
            assert forall|j: int| 0 <= j < i - p implies rest[j] != sep by {
                assert(rest[j] == cs@[p + j]);
            }
            lemma_first_index_is(rest, sep, i - p);
        }
        if m == 0 {
            let mut out: Vec<char> = Vec::new();
            let mut q: usize = p;
            while q < i
                invariant
                    p <= q <= i <= cs@.len(),
                    out@ == cs@.subrange(p as int, q as int),
                decreases i - q,
            {
                out.push(cs[q]);
                assert(out@ =~= cs@.subrange(p as int, q as int + 1));
                q = q + 1;
            }
            assert(rest.take(i - p) =~= cs@.subrange(p as int, i as int));
            return Some(string_of_chars(&out));
        }
        if i == cs.len() {
            return None;
        }
        assert(rest.skip(i - p + 1) =~= s@.skip(i as int + 1));
        p = i + 1;
        m = m - 1;
    }
}

/// The home directory in a `passwd` entry (`name:pw:uid:gid:gecos:home:shell`),
/// as `getent passwd <uid>` prints it; an entry without that field is an
/// error that names the user id.
pub fn home_from_passwd(entry: &str, uid: u32) -> (r: Result<String, String>)
    ensures
        match nth_field(entry@, ':', 5) {
            Some(h) => r matches Ok(t) && t@ == h,
            None => r matches Err(m) && m@ == "Output command error: getent passwd "@ + dec(uid as nat)
                + ", cannot find homedir field."@,
        },
{
    match split_field(entry, ':', 5) {
        Some(h) => Ok(h),
        None => Err(cat3("Output command error: getent passwd ", u32_to_dec(uid).as_str(), ", cannot find homedir field.")),
    }
}

} // verus!
