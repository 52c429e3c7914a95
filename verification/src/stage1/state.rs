//! What the helper knows while it handles one hook.
use vstd::prelude::*;
use crate::envmap::EnvMap;
use crate::stage1::config::Config;
use crate::text::{owned, strs};

verus! {

/// The context the helper was started in.
pub enum Context {
    Local,
    Allocator,
    Remote,
}

/// The hook the helper was started for.
pub enum Function {
    Init,
    InitPostOpt,
    UserInit,
    TaskInit,
    TaskInitPrivileged,
    TaskExit,
    Exit,
}

/// The helper's command-line arguments.
pub struct Args {
    pub context: Context,
    pub function: Function,
    pub payload: Option<String>,
}

/// The job step and task the helper runs for.
pub struct Job {
    pub uid: u32,
    pub gid: u32,
    pub jobid: u32,
    pub stepid: u32,
    pub local_task_id: u32,
    pub global_task_id: u32,
    pub nodeid: u32,
    pub local_task_count: u32,
    pub total_task_count: u32,
    pub cwd: String,
    pub euid: u32,
    pub egid: u32,
}

/// The container run of a job step.
pub struct Run {
    pub name: String,
    pub pid: usize,
    pub podman_tmp_path: String,
    pub syncfile_path: String,
}

/// The environment definition of the container: its image, its
/// environment, its working directory and its mounts (each as
/// `source:destination:flags`).
pub struct Edf {
    pub image: String,
    pub env: EnvMap,
    pub workdir: String,
    pub mounts: Vec<String>,
}

/// The helper's state.
pub struct State {
    pub log_file: String,
    pub exe_user: String,
    pub exe_path: String,
    pub exe_args: String,
    pub args: Args,
    pub config: Config,
    pub job_env: EnvMap,
    pub job_arg: Vec<String>,
    pub edf: Option<Edf>,
    pub job: Option<Job>,
    pub run: Option<Run>,
}

/// `items` joined with single spaces.
pub open spec fn space_join(items: Seq<Seq<char>>) -> Seq<char>
    decreases items.len(),
{
    if items.len() == 0 {
        Seq::empty()
    } else if items.len() == 1 {
        items[0]
    } else {
        space_join(items.drop_last()) + " "@ + items.last()
    }
}

/// The helper's arguments after the program name, joined with spaces.
pub fn exe_args_line(argv: &Vec<String>) -> (r: String)
    requires
        argv@.len() >= 1,
    ensures
        r@ == space_join(strs(argv@).skip(1)),
{
    let ghost all = strs(argv@).skip(1);
    let mut r = String::new();
    let mut i: usize = 1;
    assert(all.take(0) =~= Seq::<Seq<char>>::empty());
    while i < argv.len()
        invariant
            1 <= i <= argv@.len(),
            all == strs(argv@).skip(1),
            r@ == space_join(all.take(i - 1)),
        decreases argv.len() - i,
    {
        let ghost before = all.take(i - 1);
        assert(all.take(i as int).drop_last() =~= before);
        assert(all.take(i as int).last() == argv@[i as int]@);
        if i > 1 {
            r.append(" ");
        } else {
            assert(all.take(1) =~= seq![argv@[1]@]);
        }
        r.append(argv[i].as_str());
        i = i + 1;
    }
    assert(all.take(argv@.len() - 1) =~= all);
    r
}

/// The state at the helper's start: the user it runs as (`unknown_user`
/// when unknown), its path and arguments, and what the plugin passed;
/// nothing of the job or the container yet.
pub fn load_state(
    args: Args,
    config: Config,
    job_arg: Vec<String>,
    job_env: EnvMap,
    exe_user: Option<String>,
    exe_path: String,
    argv: &Vec<String>,
) -> (r: State)
    requires
        argv@.len() >= 1,
    ensures
        r.log_file@ == Seq::<char>::empty(),
        r.exe_user@ == match exe_user {
            Some(u) => u@,
            None => "unknown_user"@,
        },
        r.exe_path == exe_path,
        r.exe_args@ == space_join(strs(argv@).skip(1)),
        r.args == args,
        r.config == config,
        r.job_arg == job_arg,
        r.job_env@ == job_env@,
        r.edf is None && r.job is None && r.run is None,
{
    let user = match exe_user {
        Some(u) => u,
        None => owned("unknown_user"),
    };
    State {
        log_file: String::new(),
        exe_user: user,
        exe_path,
        exe_args: exe_args_line(argv),
        args,
        config,
        job_env,
        job_arg,
        edf: None,
        job: None,
        run: None,
    }
}

/// The task's number on its node. The job must be known.
pub fn get_local_task_id(state: &State) -> (r: u32)
    requires
        state.job is Some,
    ensures
        r == state.job->0.local_task_id,
{
    match &state.job {
        Some(j) => j.local_task_id,
        None => 0,
    }
}

} // verus!
