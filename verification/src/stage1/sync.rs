//! How the tasks of a job step coordinate on a node: who imports the
//! image, who starts the container, how the others wait for it, and who
//! cleans up.
use vstd::prelude::*;
use crate::stage1::state::{Job, Run, State};
use crate::stage1::slurmstepd::PidfileRead;
use crate::text::{cat, cat3, chars_of, dec, lemma_dec_parses, lemma_dec_roundtrip, int_dec, i32_to_dec, join_path, owned, parse_i32,
    parse_i32_spec, parse_unsigned, parse_usize, path_join, string_of_chars, u32_to_dec, usize_to_dec};

verus! {

/// The marker a failed container start leaves for the waiting tasks.
pub const PODMAN_START_FAILURE_FILE: &'static str = ".podman-start.failed";
/// The file Podman writes the container's process id to.
pub const PODMAN_PIDFILE_NAME: &'static str = "pidfile";
/// How often a task looks for the pid file before it gives up.
pub const PIDFILE_MAX_ATTEMPTS: u32 = 600;
/// How often a task looks at the entry point before it gives up.
pub const ENTRYPOINT_MAX_ATTEMPTS: u32 = 3000;

/// Whether this is the first task on its node; no when the job is unknown.
pub fn is_local_task_0(state: &State) -> (r: bool)
    ensures
        r == (state.job matches Some(j) && j.local_task_id == 0),
{
    match &state.job {
        Some(j) => j.local_task_id == 0,
        None => false,
    }
}

/// Whether this is the job step's first task; no when the job is unknown.
pub fn is_global_task_0(state: &State) -> (r: bool)
    ensures
        r == (state.job matches Some(j) && j.global_task_id == 0),
{
    match &state.job {
        Some(j) => j.global_task_id == 0,
        None => false,
    }
}

/// Whether the task's node is node 0 of the job; false while the job is
/// unknown.
pub fn is_node_0(state: &State) -> (r: bool)
    ensures
        r == (state.job matches Some(j) && j.nodeid == 0),
{
    match &state.job {
        Some(j) => j.nodeid == 0,
        None => false,
    }
}

/// The start-failure marker in the run directory `run_path`.
pub fn podman_start_failure_path(run_path: &str) -> (r: String)
    ensures
        r@ == path_join(run_path@, PODMAN_START_FAILURE_FILE@),
{
    join_path(run_path, PODMAN_START_FAILURE_FILE)
}

/// The pid file in the run directory `run_path`.
pub fn podman_pidfile_path(run_path: &str) -> (r: String)
    ensures
        r@ == path_join(run_path@, PODMAN_PIDFILE_NAME@),
{
    join_path(run_path, PODMAN_PIDFILE_NAME)
}

// ---------------------------------------------------------------------------
// Whitespace, as `char::is_whitespace` and `str::trim` see it
// ---------------------------------------------------------------------------

/// Whether `c` has the Unicode `White_Space` property.
pub open spec fn is_white_space(c: char) -> bool {
    ||| '\t' <= c <= '\r'
    ||| c == ' '
    ||| c == '\u{85}'
    ||| c == '\u{a0}'
    ||| c == '\u{1680}'
    ||| '\u{2000}' <= c <= '\u{200a}'
    ||| c == '\u{2028}'
    ||| c == '\u{2029}'
    ||| c == '\u{202f}'
    ||| c == '\u{205f}'
    ||| c == '\u{3000}'
}

fn is_white_space_exec(c: char) -> (r: bool)
    ensures
        r == is_white_space(c),
{
    ('\t' <= c && c <= '\r') || c == ' ' || c == '\u{85}' || c == '\u{a0}' || c == '\u{1680}'
        || ('\u{2000}' <= c && c <= '\u{200a}') || c == '\u{2028}' || c == '\u{2029}'
        || c == '\u{202f}' || c == '\u{205f}' || c == '\u{3000}'
}

/// `s` without trailing whitespace.
pub open spec fn trim_end(s: Seq<char>) -> Seq<char>
    decreases s.len(),
{
    if s.len() > 0 && is_white_space(s.last()) {
        trim_end(s.drop_last())
    } else {
        s
    }
}

/// `s` without leading whitespace.
pub open spec fn trim_start(s: Seq<char>) -> Seq<char>
    decreases s.len(),
{
    if s.len() > 0 && is_white_space(s[0]) {
        trim_start(s.drop_first())
    } else {
        s
    }
}

/// `s` without whitespace at either end.
pub open spec fn trim(s: Seq<char>) -> Seq<char> {
    trim_start(trim_end(s))
}

/// Where the text `s` ends once trailing whitespace is dropped.
fn trimmed_end(cs: &Vec<char>) -> (j: usize)
    ensures
        j <= cs@.len(),
        trim_end(cs@) == cs@.take(j as int),
{
    let mut j = cs.len();
    assert(cs@.take(j as int) =~= cs@);
    while j > 0 && is_white_space_exec(cs[j - 1])
        invariant
            j <= cs@.len(),
            trim_end(cs@) == trim_end(cs@.take(j as int)),
        decreases j,
    {
        assert(cs@.take(j as int).drop_last() =~= cs@.take(j as int - 1));
        j = j - 1;
    }
    j
}

/// Where the text `cs[..j]` starts once leading whitespace is dropped.
fn trimmed_start(cs: &Vec<char>, j: usize) -> (i: usize)
    requires
        j <= cs@.len(),
    ensures
        i <= j,
        trim_start(cs@.take(j as int)) == cs@.subrange(i as int, j as int),
{
    let mut i: usize = 0;
    assert(cs@.subrange(0, j as int) =~= cs@.take(j as int));
    while i < j && is_white_space_exec(cs[i])
        invariant
            i <= j <= cs@.len(),
            trim_start(cs@.take(j as int)) == trim_start(cs@.subrange(i as int, j as int)),
        decreases j - i,
    {
        assert(cs@.subrange(i as int, j as int).drop_first() =~= cs@.subrange(i as int + 1, j as int));
        i = i + 1;
    }
    i
}

fn chars_between(cs: &Vec<char>, i: usize, j: usize) -> (r: String)
    requires
        i <= j <= cs@.len(),
    ensures
        r@ == cs@.subrange(i as int, j as int),
{
    let mut out: Vec<char> = Vec::new();
    let mut k = i;
    while k < j
        invariant
            i <= k <= j <= cs@.len(),
            out@ == cs@.subrange(i as int, k as int),
        decreases j - k,
    {
        out.push(cs[k]);
        assert(out@ =~= cs@.subrange(i as int, k as int + 1));
        k = k + 1;
    }
    string_of_chars(&out)
}

/// `s.trim_end()`.
pub fn trim_end_str(s: &str) -> (r: String)
    ensures
        r@ == trim_end(s@),
{
    let cs = chars_of(s);
    let j = trimmed_end(&cs);
    let r = chars_between(&cs, 0, j);
    assert(cs@.subrange(0, j as int) =~= cs@.take(j as int));
    r
}

/// `s.trim()`.
pub fn trim_str(s: &str) -> (r: String)
    ensures
        r@ == trim(s@),
{
    let cs = chars_of(s);
    let j = trimmed_end(&cs);
    let i = trimmed_start(&cs, j);
    chars_between(&cs, i, j)
}

// ---------------------------------------------------------------------------
// Image import
// ---------------------------------------------------------------------------

/// The line the importing task writes to the marker file: its result.
pub fn pull_done_line(result: i32) -> (r: String)
    ensures
        r@ == int_dec(result as int) + "\n"@,
{
    cat(i32_to_dec(result).as_str(), "\n")
}

/// The importer's result read back from the first line of the marker
/// file: the line without trailing whitespace, as an `i32`. `None` is a
/// line that holds no such number, on which the helper stops.
pub fn parse_pull_result(line: &str) -> (r: Option<i32>)
    ensures
        r matches Some(v) ==> parse_i32_spec(trim_end(line@)) == Some(v as int),
        r is None ==> parse_i32_spec(trim_end(line@)) is None,
{
    let t = trim_end_str(line);
    parse_i32(t.as_str())
}

/// What a waiting task makes of the importer's result: success on `0`,
/// else an error that names the result.
pub fn pull_wait_outcome(result: i32) -> (r: Result<(), String>)
    ensures
        result == 0 ==> r is Ok,
        result != 0 ==> (r matches Err(m) && m@ == "Error: image importer exited with "@ + int_dec(result as int)),
{
    if result == 0 {
        Ok(())
    } else {
        Err(cat("Error: image importer exited with ", i32_to_dec(result).as_str()))
    }
}

/// What the importing task writes, the waiting tasks read back: the line
/// [`pull_done_line`] writes for a result parses, as
/// [`parse_pull_result`] reads it, to that result.
pub proof fn lemma_pull_marker_roundtrip(result: i32)
    ensures
        parse_i32_spec(trim_end(int_dec(result as int) + "\n"@)) == Some(result as int),
{
    reveal_strlit("\n");
    let x = int_dec(result as int);
    if result < 0 {
        lemma_dec_parses((-result) as nat);
    } else {
        lemma_dec_parses(result as nat);
    }
    assert(x.last() == dec(if result < 0 { (-result) as nat } else { result as nat }).last());
    assert((x + "\n"@).drop_last() =~= x);
    assert(trim_end(x + "\n"@) == trim_end(x));
    assert(trim_end(x) == x);
    if result < 0 {
        assert(x.drop_first() =~= dec((-result) as nat));
    } else {
        lemma_dec_roundtrip(result as nat, 0x7fff_ffff);
    }
}

/// A process id that Podman writes to the pid file, with or without a
/// final newline, is what [`read_podman_start_state`] reads back.
pub proof fn lemma_pidfile_roundtrip(pid: usize)
    ensures
        parse_unsigned(trim(dec(pid as nat)), usize::MAX as nat) == Some(pid as nat),
        parse_unsigned(trim(dec(pid as nat) + "\n"@), usize::MAX as nat) == Some(pid as nat),
{
    reveal_strlit("\n");
    let x = dec(pid as nat);
    lemma_dec_parses(pid as nat);
    lemma_dec_roundtrip(pid as nat, usize::MAX as nat);
    assert((x + "\n"@).drop_last() =~= x);
    assert(trim_end(x + "\n"@) == trim_end(x));
    assert(trim_end(x) == x);
    assert(trim_start(x) == x);
}

// ---------------------------------------------------------------------------
// Container start
// ---------------------------------------------------------------------------

/// What a task does when the container is to start.
pub enum StartRole {
    /// The node's first task: it clears the failure marker, starts the
    /// container, then waits like the others.
    Starter { run_path: String, marker: String },
    /// Any other task: it only waits.
    Waiter { run_path: String },
}

/// The role of the task at container start: the node's first task starts
/// it; every task needs the run.
pub fn sync_podman_start_role(state: &State) -> (r: Result<StartRole, String>)
    ensures
        state.run is None ==> (r matches Err(m) && m@ == "couldn't find run"@),
        state.run matches Some(rn) ==> if state.job matches Some(j) && j.local_task_id == 0 {
            r matches Ok(StartRole::Starter { run_path, marker }) && run_path@ == rn.podman_tmp_path@
                && marker@ == path_join(rn.podman_tmp_path@, PODMAN_START_FAILURE_FILE@)
        } else {
            r matches Ok(StartRole::Waiter { run_path }) && run_path@ == rn.podman_tmp_path@
        },
{
    let rn = match &state.run {
        Some(rn) => rn,
        None => {
            return Err(owned("couldn't find run"));
        },
    };
    if is_local_task_0(state) {
        Ok(StartRole::Starter {
            run_path: rn.podman_tmp_path.clone(),
            marker: podman_start_failure_path(rn.podman_tmp_path.as_str()),
        })
    } else {
        Ok(StartRole::Waiter { run_path: rn.podman_tmp_path.clone() })
    }
}

/// What removing a stale failure marker gave.
pub enum MarkerRemoval {
    Removed,
    /// There was none.
    Absent,
    /// It could not be removed, for the system's reason given.
    Failed(String),
}

/// The outcome of clearing the failure marker before a start: only a
/// removal that failed for another reason than the marker's absence is an
/// error.
pub fn stale_marker_outcome(marker: &str, removal: MarkerRemoval) -> (r: Result<(), String>)
    ensures
        match removal {
            MarkerRemoval::Failed(cause) => r matches Err(m)
                && m@ == "failed to remove stale Podman startup failure marker `"@ + marker@ + "`: "@ + cause@,
            _ => r is Ok,
        },
{
    match removal {
        MarkerRemoval::Failed(cause) => {
            let a = cat3("failed to remove stale Podman startup failure marker `", marker, "`: ");
            Err(cat(a.as_str(), cause.as_str()))
        },
        _ => Ok(()),
    }
}

/// What to do with the failure marker after a start.
pub enum MarkerAction {
    Leave,
    /// Create the marker at this path, so that the waiting tasks give up.
    Create(String),
}

/// After the first task's start: a failed start leaves the marker for the
/// other tasks and ends with the start's error; a successful one goes on.
pub fn after_start(marker: &str, started: Result<(), String>) -> (r: (MarkerAction, Result<(), String>))
    ensures
        match started {
            Ok(()) => r.0 is Leave && r.1 is Ok,
            Err(e) => (r.0 matches MarkerAction::Create(p) && p@ == marker@) && r.1 == Err::<(), String>(e),
        },
{
    match started {
        Ok(()) => (MarkerAction::Leave, Ok(())),
        Err(e) => (MarkerAction::Create(owned(marker)), Err(e)),
    }
}

/// The line logged when the failure marker could not be created.
pub fn marker_notice(marker: &str, cause: &str) -> (r: String)
    ensures
        r@ == "failed to notify sibling tasks of Podman startup failure: failed to create Podman startup failure marker `"@
            + marker@ + "`: "@ + cause@,
{
    let a = cat3(
        "failed to notify sibling tasks of Podman startup failure: failed to create Podman startup failure marker `",
        marker,
        "`: ",
    );
    cat(a.as_str(), cause)
}

/// What the run directory says of the container's start.
pub enum PodmanStartState {
    Pending,
    Failed,
    Started(usize),
}

/// Why the run directory could not be read.
pub enum StartStateError {
    /// The failure marker, by its path, could not be looked at.
    Inspect(String),
    /// The pid file, by its path, could not be read.
    Read(String),
    /// The pid file, by its path, holds a text that is no process id.
    InvalidPid { value: String, path: String },
}

impl StartStateError {
    /// The message, with the system's or the parser's own words `cause`.
    pub fn message(&self, cause: &str) -> (r: String)
        ensures
            r@ == start_state_error_message(*self, cause@),
    {
        match self {
            StartStateError::Inspect(p) => {
                let a = cat3("failed to inspect Podman startup failure marker `", p.as_str(), "`: ");
                cat(a.as_str(), cause)
            },
            StartStateError::Read(p) => {
                let a = cat3("failed to read container PID file `", p.as_str(), "`: ");
                cat(a.as_str(), cause)
            },
            StartStateError::InvalidPid { value, path } => {
                let a = cat3("invalid PID `", value.as_str(), "` in container PID file `");
                let b = cat3(a.as_str(), path.as_str(), "`: ");
                cat(b.as_str(), cause)
            },
        }
    }
}

/// The text of each [`StartStateError`].
pub open spec fn start_state_error_message(e: StartStateError, cause: Seq<char>) -> Seq<char> {
    match e {
        StartStateError::Inspect(p) => "failed to inspect Podman startup failure marker `"@ + p@ + "`: "@ + cause,
        StartStateError::Read(p) => "failed to read container PID file `"@ + p@ + "`: "@ + cause,
        StartStateError::InvalidPid { value, path } => "invalid PID `"@ + value@ + "` in container PID file `"@
            + path@ + "`: "@ + cause,
    }
}

/// The state of the start from what the run directory `run_path` holds:
/// whether the failure marker exists (`None`: it could not be looked at)
/// and what reading the pid file gave. The marker wins; a missing pid
/// file means the start is pending; its text, trimmed, is the process id.
pub fn read_podman_start_state(run_path: &str, failure_marker: Option<bool>, pidfile: PidfileRead)
    -> (r: Result<PodmanStartState, StartStateError>)
    ensures
        failure_marker == Some(true) ==> r matches Ok(PodmanStartState::Failed),
        failure_marker is None ==> (r matches Err(StartStateError::Inspect(p))
            && p@ == path_join(run_path@, PODMAN_START_FAILURE_FILE@)),
        failure_marker == Some(false) ==> match pidfile {
            PidfileRead::Missing => r matches Ok(PodmanStartState::Pending),
            PidfileRead::Unreadable => r matches Err(StartStateError::Read(p))
                && p@ == path_join(run_path@, PODMAN_PIDFILE_NAME@),
            PidfileRead::Contents(t) => match parse_unsigned(trim(t@), usize::MAX as nat) {
                Some(v) => r matches Ok(PodmanStartState::Started(pid)) && pid == v,
                None => r matches Err(StartStateError::InvalidPid { value, path })
                    && value@ == trim(t@) && path@ == path_join(run_path@, PODMAN_PIDFILE_NAME@),
            },
        },
{
    match failure_marker {
        Some(true) => {
            return Ok(PodmanStartState::Failed);
        },
        Some(false) => {},
        None => {
            return Err(StartStateError::Inspect(podman_start_failure_path(run_path)));
        },
    }
    match pidfile {
        PidfileRead::Missing => Ok(PodmanStartState::Pending),
        PidfileRead::Unreadable => Err(StartStateError::Read(podman_pidfile_path(run_path))),
        PidfileRead::Contents(t) => {
            let value = trim_str(t.as_str());
            match parse_usize(value.as_str()) {
                Some(pid) => Ok(PodmanStartState::Started(pid)),
                None => Err(StartStateError::InvalidPid { value, path: podman_pidfile_path(run_path) }),
            }
        },
    }
}

/// What a waiting task does next.
pub enum WaitStep {
    /// The wait is over; the container's process.
    Proceed(usize),
    /// Wait once more; the attempts so far, and whether to log this one.
    Retry { attempts: u32, log: bool },
    /// Give up, with this message.
    Fail(String),
}

/// Whether the `n`-th retry is logged: the first and every fiftieth.
pub open spec fn logged_attempt(n: int) -> bool {
    n == 1 || n % 50 == 0
}

/// The next step of the wait for the pid file, after `attempts` polls
/// that found it pending and a poll that saw `observed`. The wait fails
/// on the container's failure and after [`PIDFILE_MAX_ATTEMPTS`] polls;
/// a retry always counts one more attempt, below that bound.
pub fn pidfile_wait_step(attempts: u32, observed: &PodmanStartState, task: u32) -> (r: WaitStep)
    ensures
        match *observed {
            PodmanStartState::Started(p) => r == WaitStep::Proceed(p),
            PodmanStartState::Failed => r matches WaitStep::Fail(m)
                && m@ == "Podman container startup failed on local task 0"@,
            PodmanStartState::Pending => if attempts + 1 >= PIDFILE_MAX_ATTEMPTS {
                r matches WaitStep::Fail(m) && m@ == "task "@ + dec(task as nat)
                    + " - Timed out waiting for Podman container to start on local task 0"@
            } else {
                r == WaitStep::Retry { attempts: (attempts + 1) as u32, log: logged_attempt(attempts + 1) }
            },
        },
{
    match observed {
        PodmanStartState::Started(p) => WaitStep::Proceed(*p),
        PodmanStartState::Failed => WaitStep::Fail(owned("Podman container startup failed on local task 0")),
        PodmanStartState::Pending => {
            if attempts >= PIDFILE_MAX_ATTEMPTS - 1 {
                WaitStep::Fail(cat3(
                    "task ",
                    u32_to_dec(task).as_str(),
                    " - Timed out waiting for Podman container to start on local task 0",
                ))
            } else {
                let n = attempts + 1;
                WaitStep::Retry { attempts: n, log: n == 1 || n % 50 == 0 }
            }
        },
    }
}

/// The next step of the wait for the container's entry point to stop
/// itself, after `attempts` polls that found the process `pid` running.
/// The wait fails after [`ENTRYPOINT_MAX_ATTEMPTS`] polls.
pub fn entrypoint_wait_step(attempts: u32, stopped: bool, pid: usize) -> (r: WaitStep)
    ensures
        stopped ==> r == WaitStep::Proceed(pid),
        !stopped ==> if attempts + 1 >= ENTRYPOINT_MAX_ATTEMPTS {
            r matches WaitStep::Fail(m) && m@ == "container entrypoint process "@ + dec(pid as nat)
                + " did not complete."@
        } else {
            r == WaitStep::Retry { attempts: (attempts + 1) as u32, log: logged_attempt(attempts + 1) }
        },
{
    if stopped {
        WaitStep::Proceed(pid)
    } else if attempts >= ENTRYPOINT_MAX_ATTEMPTS - 1 {
        WaitStep::Fail(cat3("container entrypoint process ", usize_to_dec(pid).as_str(), " did not complete."))
    } else {
        let n = attempts + 1;
        WaitStep::Retry { attempts: n, log: n == 1 || n % 50 == 0 }
    }
}

// ---------------------------------------------------------------------------
// Container stop and cleanup
// ---------------------------------------------------------------------------

/// Where the tasks of a node mark that they exited, and the file this
/// task creates there.
pub struct StopPlan {
    pub completed_dir: String,
    pub completed_file: String,
    pub task_count: u32,
}

/// What a task does when it exits: the directory `completed` in the run
/// directory, the file `task_<id>.exit` in it, and how many such files
/// mean that all tasks of the node are done. Needs the run and the job.
pub fn sync_podman_stop_plan(state: &State) -> (r: Result<StopPlan, String>)
    ensures
        state.run is None ==> (r matches Err(m) && m@ == "Error: cannot find run structure"@),
        state.run is Some && state.job is None ==> (r matches Err(m)
            && m@ == "Error: cannot find job structure"@),
        state.run matches Some(rn) ==> (state.job matches Some(j) ==> (r matches Ok(p)
            && p.completed_dir@ == rn.podman_tmp_path@ + "/completed"@
            && p.completed_file@ == rn.podman_tmp_path@ + "/completed"@ + "/task_"@
                + dec(j.local_task_id as nat) + ".exit"@
            && p.task_count == j.local_task_count)),
{
    let rn = match &state.run {
        Some(rn) => rn,
        None => {
            return Err(owned("Error: cannot find run structure"));
        },
    };
    let j = match &state.job {
        Some(j) => j,
        None => {
            return Err(owned("Error: cannot find job structure"));
        },
    };
    let dir = cat(rn.podman_tmp_path.as_str(), "/completed");
    let head = cat3(dir.as_str(), "/task_", u32_to_dec(j.local_task_id).as_str());
    let file = cat(head.as_str(), ".exit");
    Ok(StopPlan { completed_dir: dir, completed_file: file, task_count: j.local_task_count })
}

/// Whether the entries of the `completed` directory account for all
/// tasks of the node; the count is taken modulo 2^32, as a `u32`.
pub fn all_tasks_completed(entries: usize, task_count: u32) -> (r: bool)
    ensures
        r == ((entries as u32) == task_count),
{
    (entries as u32) == task_count
}

/// The `completed` directory to remove once the container is stopped.
pub fn completed_dir_to_remove(state: &State) -> (r: Result<String, String>)
    ensures
        state.run is None ==> (r matches Err(m) && m@ == "Error: couldn't find podman_tmp_path"@),
        state.run matches Some(rn) ==> (r matches Ok(p) && p@ == rn.podman_tmp_path@ + "/completed"@),
{
    match &state.run {
        Some(rn) => Ok(cat(rn.podman_tmp_path.as_str(), "/completed")),
        None => Err(owned("Error: couldn't find podman_tmp_path")),
    }
}

/// The import marker to remove at the step's end: only the first node
/// removes it (`Ok(None)` elsewhere); it needs the run.
pub fn shared_cleanup_target(state: &State) -> (r: Result<Option<String>, String>)
    ensures
        !(state.job matches Some(j) && j.nodeid == 0) ==> r matches Ok(None),
        (state.job matches Some(j) && j.nodeid == 0) ==> match state.run {
            Some(rn) => r matches Ok(Some(p)) && p@ == rn.syncfile_path@,
            None => r matches Err(m) && m@ == "Error: couldn't find syncfile_path"@,
        },
{
    if !is_node_0(state) {
        return Ok(None);
    }
    match &state.run {
        Some(rn) => Ok(Some(rn.syncfile_path.clone())),
        None => Err(owned("Error: couldn't find syncfile_path")),
    }
}

/// The directories a run needs, in the order they are made: the run
/// directory and its `graphroot` and `runroot`.
pub fn setup_folders(state: &State) -> (r: Result<Vec<String>, String>)
    ensures
        state.run is None ==> (r matches Err(m) && m@ == "Error: couldn't find podman_tmp_path"@),
        state.run matches Some(rn) ==> (r matches Ok(v) && v@.len() == 3
            && v@[0]@ == rn.podman_tmp_path@
            && v@[1]@ == rn.podman_tmp_path@ + "/graphroot"@
            && v@[2]@ == rn.podman_tmp_path@ + "/runroot"@),
{
    match &state.run {
        Some(rn) => {
            let mut v: Vec<String> = Vec::new();
            v.push(rn.podman_tmp_path.clone());
            v.push(cat(rn.podman_tmp_path.as_str(), "/graphroot"));
            v.push(cat(rn.podman_tmp_path.as_str(), "/runroot"));
            Ok(v)
        },
        None => Err(owned("Error: couldn't find podman_tmp_path")),
    }
}

} // verus!
