//! How the environment definition is adjusted for the job.
use vstd::prelude::*;
use crate::stage1::SLURM_BATCH_SCRIPT;
use crate::stage1::state::State;
use crate::text::{cat, cat3};

verus! {

/// The mount that makes the batch script visible in the container: the
/// script on itself, bound read-only.
pub open spec fn sbatch_mount(script: Seq<char>) -> Seq<char> {
    script + ":"@ + script + ":"@ + "bind,ro,nosuid,nodev,private"@
}

/// Whether the state is that of a batch script whose definition and
/// first argument are known.
pub open spec fn sbatch_applies(s: State) -> bool {
    &&& s.job matches Some(j) && j.stepid == SLURM_BATCH_SCRIPT
    &&& s.edf is Some
    &&& s.job_arg@.len() > 0
}

/// The mount text to check for a batch script (see [`sbatch_mount`]):
/// none for other steps, or when the job, the definition or the first
/// argument is missing.
pub fn sbatch_mount_request(state: &State) -> (r: Option<String>)
    ensures
        sbatch_applies(*state) ==> (r matches Some(t) && t@ == sbatch_mount(state.job_arg@[0]@)),
        !sbatch_applies(*state) ==> r is None,
{
    let is_batch = match &state.job {
        Some(j) => j.stepid == SLURM_BATCH_SCRIPT,
        None => false,
    };
    if !is_batch || state.job_arg.len() == 0 || state.edf.is_none() {
        return None;
    }
    let script = state.job_arg[0].as_str();
    let head = cat3(script, ":", script);
    let mount = cat(head.as_str(), ":bind,ro,nosuid,nodev,private");
    proof {
        reveal_strlit(":");
        reveal_strlit(":bind,ro,nosuid,nodev,private");
        reveal_strlit("bind,ro,nosuid,nodev,private");
        assert(mount@ =~= sbatch_mount(state.job_arg@[0]@));
    }
    Some(mount)
}

/// For a batch script, adds to the environment definition the mount of
/// the script itself (the job's first argument), when the mount parser
/// accepted that mount (`accepted`, the outcome of checking the text of
/// [`sbatch_mount_request`]). Nothing changes for other steps, when the
/// job, the definition or the argument is missing, or when the mount was
/// refused.
pub fn modify_edf_for_sbatch(state: &mut State, accepted: bool)
    ensures
        final(state).log_file == old(state).log_file,
        final(state).exe_user == old(state).exe_user,
        final(state).exe_path == old(state).exe_path,
        final(state).exe_args == old(state).exe_args,
        final(state).args == old(state).args,
        final(state).config == old(state).config,
        final(state).job_env == old(state).job_env,
        final(state).job_arg == old(state).job_arg,
        final(state).job == old(state).job,
        final(state).run == old(state).run,
        !(sbatch_applies(*old(state)) && accepted) ==> final(state).edf == old(state).edf,
        (sbatch_applies(*old(state)) && accepted) ==> (final(state).edf matches Some(e)
            && e.image == old(state).edf->0.image
            && e.env == old(state).edf->0.env
            && e.workdir == old(state).edf->0.workdir
            && e.mounts@.len() == old(state).edf->0.mounts@.len() + 1
            && e.mounts@.take(e.mounts@.len() - 1) == old(state).edf->0.mounts@
            && e.mounts@.last()@ == sbatch_mount(old(state).job_arg@[0]@)),
{
    if !accepted {
        return;
    }
    let mount = match sbatch_mount_request(state) {
        Some(m) => m,
        None => {
            return;
        },
    };
    let taken = state.edf.take();
    match taken {
        Some(mut e) => {
            let ghost before = e.mounts@;
            e.mounts.push(mount);
            assert(e.mounts@.take(e.mounts@.len() - 1) =~= before);
            state.edf = Some(e);
        },
        None => {},
    }
}

} // verus!
