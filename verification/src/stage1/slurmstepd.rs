//! What the helper decides on a compute node: the job's identity, the
//! container run's names and paths, and what it reports back.
use vstd::prelude::*;
use crate::envmap::EnvMap;
use crate::stage0::iodata::DataContainer;
use crate::stage1::{COLOR, NAME, SLURM_BATCH_SCRIPT};
use crate::stage1::config::Config;
use crate::stage1::iodata::IOData;
use crate::stage1::state::{Edf, Job, Run};
use crate::text::{cat, cat3, dec, owned, parse_u32, parse_unsigned, parse_usize, strs, u32_to_dec};

verus! {

/// The value of the job variable `key` as a `u32`: `u32::MAX` when it is
/// missing or is no such number.
pub open spec fn env_u32(env: Map<Seq<char>, Seq<char>>, key: Seq<char>) -> u32 {
    if env.contains_key(key) {
        match parse_unsigned(env[key], u32::MAX as nat) {
            Some(v) => v as u32,
            None => u32::MAX,
        }
    } else {
        u32::MAX
    }
}

fn env_u32_exec(env: &EnvMap, key: &str) -> (r: u32)
    ensures
        r == env_u32(env@, key@),
{
    match env.get(key) {
        Some(v) => match parse_u32(v.as_str()) {
            Some(n) => n,
            None => u32::MAX,
        },
        None => u32::MAX,
    }
}

/// The job as its environment describes it, run by the given user and
/// group (real and effective). Each number missing from the environment,
/// or not a `u32`, is `u32::MAX`; the working directory is `PWD`, or
/// empty.
pub fn job_get_info(job_env: &EnvMap, uid: u32, gid: u32, euid: u32, egid: u32) -> (r: Job)
    ensures
        r.uid == uid,
        r.gid == gid,
        r.euid == euid,
        r.egid == egid,
        r.jobid == env_u32(job_env@, "SLURM_JOB_ID"@),
        r.stepid == env_u32(job_env@, "SLURM_STEP_ID"@),
        r.local_task_id == env_u32(job_env@, "SLURM_LOCALID"@),
        r.global_task_id == env_u32(job_env@, "SLURM_PROCID"@),
        r.nodeid == env_u32(job_env@, "SLURM_NODEID"@),
        r.local_task_count == env_u32(job_env@, "SLURM_TASKS_PER_NODE"@),
        r.total_task_count == env_u32(job_env@, "SLURM_NTASKS"@),
        r.cwd@ == (if job_env@.contains_key("PWD"@) { job_env@["PWD"@] } else { Seq::empty() }),
{
    let cwd = match job_env.get("PWD") {
        Some(d) => d,
        None => String::new(),
    };
    Job {
        uid,
        gid,
        jobid: env_u32_exec(job_env, "SLURM_JOB_ID"),
        stepid: env_u32_exec(job_env, "SLURM_STEP_ID"),
        local_task_id: env_u32_exec(job_env, "SLURM_LOCALID"),
        global_task_id: env_u32_exec(job_env, "SLURM_PROCID"),
        nodeid: env_u32_exec(job_env, "SLURM_NODEID"),
        local_task_count: env_u32_exec(job_env, "SLURM_TASKS_PER_NODE"),
        total_task_count: env_u32_exec(job_env, "SLURM_NTASKS"),
        cwd,
        euid,
        egid,
    }
}

/// How a step is named: `batch` for the batch script, else its number.
pub open spec fn step_name(stepid: u32) -> Seq<char> {
    if stepid == SLURM_BATCH_SCRIPT {
        "batch"@
    } else {
        dec(stepid as nat)
    }
}

/// The container's name for a job step: `slurm-oddity_<job>.<step>`.
pub open spec fn run_name(jobid: u32, stepid: u32) -> Seq<char> {
    NAME@ + "_"@ + dec(jobid as nat) + "."@ + step_name(stepid)
}

/// The container run of the job step before its process is known: its
/// name, its directory below the configured temporary path, the marker
/// file in the shared image store that says the image was imported, and
/// `usize::MAX` as process id.
pub fn run_names(config: &Config, job: &Job) -> (r: Run)
    ensures
        r.name@ == run_name(job.jobid, job.stepid),
        r.podman_tmp_path@ == config.podman_tmp_path@ + "/"@ + run_name(job.jobid, job.stepid),
        r.syncfile_path@ == config.parallax_imagestore@ + "/."@ + run_name(job.jobid, job.stepid)
            + "_import.done"@,
        r.pid == usize::MAX,
{
    let step = if job.stepid == SLURM_BATCH_SCRIPT {
        owned("batch")
    } else {
        u32_to_dec(job.stepid)
    };
    let head = cat3(NAME, "_", u32_to_dec(job.jobid).as_str());
    let name = cat3(head.as_str(), ".", step.as_str());
    let tmp = cat3(config.podman_tmp_path.as_str(), "/", name.as_str());
    let store = cat3(config.parallax_imagestore.as_str(), "/.", name.as_str());
    let sync = cat(store.as_str(), "_import.done");
    Run { name, pid: usize::MAX, podman_tmp_path: tmp, syncfile_path: sync }
}

/// The process id a read of the pid file gives: the file's whole text as
/// a `usize`, else `usize::MAX`.
pub open spec fn pid_of_read(read: PidfileRead) -> usize {
    match read {
        PidfileRead::Contents(t) => match parse_unsigned(t@, usize::MAX as nat) {
            Some(v) => v as usize,
            None => usize::MAX,
        },
        _ => usize::MAX,
    }
}

/// The container run of the job step (see [`run_names`]), with the
/// process id from `read`, what reading the run's pid file
/// ([`podman_pidfile`] of [`run_names`]) gave; `usize::MAX` when that
/// gave no process id.
pub fn run_get_info(config: &Config, job: &Job, read: PidfileRead) -> (r: Run)
    ensures
        r.name@ == run_name(job.jobid, job.stepid),
        r.podman_tmp_path@ == config.podman_tmp_path@ + "/"@ + run_name(job.jobid, job.stepid),
        r.syncfile_path@ == config.parallax_imagestore@ + "/."@ + run_name(job.jobid, job.stepid)
            + "_import.done"@,
        r.pid == pid_of_read(read),
{
    let mut rn = run_names(config, job);
    rn.pid = match read {
        PidfileRead::Contents(t) => match parse_usize(t.as_str()) {
            Some(p) => p,
            None => usize::MAX,
        },
        _ => usize::MAX,
    };
    rn
}

/// The file Podman writes the container's process id to.
pub fn podman_pidfile(run: &Run) -> (r: String)
    ensures
        r@ == run.podman_tmp_path@ + "/pidfile"@,
{
    cat(run.podman_tmp_path.as_str(), "/pidfile")
}

/// What reading the pid file gave.
pub enum PidfileRead {
    Missing,
    Unreadable,
    Contents(String),
}

/// Why no process id came from the pid file.
pub enum PidError {
    /// The run is not known.
    NoRun,
    /// The file, by its path, does not exist.
    NotFound(String),
    /// The file, by its path, cannot be read.
    Unreadable(String),
    /// The file's text is no number.
    NotANumber(String),
}

impl PidError {
    /// The message the helper logs.
    pub fn message(&self) -> (r: String)
        ensures
            r@ == pid_error_message(*self),
    {
        match self {
            PidError::NoRun => owned("couldn't find run data"),
            PidError::NotFound(p) => cat(p.as_str(), " NOT FOUND!"),
            PidError::Unreadable(p) => cat("cannot read pid from ", p.as_str()),
            PidError::NotANumber(t) => cat3("cannot convert ", t.as_str(), " to number"),
        }
    }
}

/// The text of each [`PidError`].
pub open spec fn pid_error_message(e: PidError) -> Seq<char> {
    match e {
        PidError::NoRun => "couldn't find run data"@,
        PidError::NotFound(p) => p@ + " NOT FOUND!"@,
        PidError::Unreadable(p) => "cannot read pid from "@ + p@,
        PidError::NotANumber(t) => "cannot convert "@ + t@ + " to number"@,
    }
}

/// The container's process id from the pid file of the run: the file's
/// whole text read as a `usize`.
pub fn podman_get_pid_from_file(run: &Option<Run>, read: PidfileRead) -> (r: Result<usize, PidError>)
    ensures
        run is None ==> r matches Err(PidError::NoRun),
        run matches Some(rn) ==> match read {
            PidfileRead::Missing => r matches Err(PidError::NotFound(p))
                && p@ == rn.podman_tmp_path@ + "/pidfile"@,
            PidfileRead::Unreadable => r matches Err(PidError::Unreadable(p))
                && p@ == rn.podman_tmp_path@ + "/pidfile"@,
            PidfileRead::Contents(t) => match parse_unsigned(t@, usize::MAX as nat) {
                Some(v) => r == Ok::<usize, PidError>(v as usize),
                None => r matches Err(PidError::NotANumber(s)) && s@ == t@,
            },
        },
{
    let rn = match run {
        Some(rn) => rn,
        None => {
            return Err(PidError::NoRun);
        },
    };
    match read {
        PidfileRead::Missing => Err(PidError::NotFound(podman_pidfile(rn))),
        PidfileRead::Unreadable => Err(PidError::Unreadable(podman_pidfile(rn))),
        PidfileRead::Contents(t) => match parse_usize(t.as_str()) {
            Some(v) => Ok(v),
            None => Err(PidError::NotANumber(t)),
        },
    }
}

/// The names of the container variables whose value is empty, in order:
/// the helper removes them from its own environment.
pub open spec fn empty_valued_keys(keys: Seq<Seq<char>>, env: Map<Seq<char>, Seq<char>>) -> Seq<Seq<char>>
    decreases keys.len(),
{
    if keys.len() == 0 {
        Seq::empty()
    } else {
        let rest = empty_valued_keys(keys.drop_last(), env);
        if env[keys.last()] == Seq::<char>::empty() {
            rest.push(keys.last())
        } else {
            rest
        }
    }
}

/// The container variables to unset: those the environment definition
/// gives an empty value, in its order.
pub fn remote_unset_env_vars(edf_env: &EnvMap) -> (r: Vec<String>)
    ensures
        strs(r@) == empty_valued_keys(edf_env.key_seq(), edf_env@),
{
    let n = edf_env.len();
    let ghost keys = edf_env.key_seq();
    let mut r: Vec<String> = Vec::new();
    let mut i: usize = 0;
    assert(keys.take(0) =~= Seq::<Seq<char>>::empty());
    assert(strs(r@) =~= Seq::<Seq<char>>::empty());
    while i < n
        invariant
            n == keys.len(),
            keys == edf_env.key_seq(),
            i <= n,
            strs(r@) == empty_valued_keys(keys.take(i as int), edf_env@),
        decreases n - i,
    {
        let k = edf_env.key_at(i);
        let v = edf_env.value_at(i);
        assert(keys.take(i as int + 1).drop_last() =~= keys.take(i as int));
        assert(keys.take(i as int + 1).last() == keys[i as int]);
        if v.as_str().is_empty() {
            assert(v@ =~= Seq::<char>::empty());
            let ghost before = r@;
            r.push(k);
            assert(strs(r@) =~= strs(before).push(keys[i as int]));
        } else {
            assert(v@ != Seq::<char>::empty());
        }
        i = i + 1;
    }
    assert(keys.take(n as int) =~= keys);
    r
}

/// The line the helper shows the user when a task starts: the cat is
/// dead when the configuration is poisoned.
pub open spec fn announce_line(poison: bool) -> Seq<char> {
    "I am "@ + COLOR@ + " "@ + (if poison { "dead"@ } else { "living"@ }) + " cat!\n"@
}

/// [`announce_line`] for the configuration the helper carries. The data
/// must carry it.
pub fn announce(data: &IOData) -> (r: String)
    requires
        data.forward is Some,
    ensures
        r@ == announce_line(data.forward->0.config.poison),
{
    let status = match &data.forward {
        Some(f) => if f.config.poison { "dead" } else { "living" },
        None => "living",
    };
    let head = cat3("I am ", COLOR, " ");
    cat3(head.as_str(), status, " cat!\n")
}

/// What the helper reports of the started container: its environment,
/// its process and its working directory; nothing when the process id
/// does not fit in a `u32`.
pub fn container_data(edf: &Edf, run: &Run) -> (r: Option<DataContainer>)
    ensures
        run.pid > u32::MAX ==> r is None,
        run.pid <= u32::MAX ==> (r matches Some(dc) && dc.pid == run.pid && dc.env@ == edf.env@
            && dc.workdir@ == edf.workdir@),
{
    if run.pid > 0xffff_ffffusize {
        None
    } else {
        Some(DataContainer {
            env: edf.env.duplicate(),
            pid: run.pid as u32,
            workdir: edf.workdir.clone(),
        })
    }
}

} // verus!
