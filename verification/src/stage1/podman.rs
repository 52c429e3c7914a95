//! What the helper asks of Podman: the contexts it runs Podman in, the
//! steps of an image import, and the container it starts.
use vstd::prelude::*;
use crate::stage1::config::Config;
use crate::stage1::state::{Job, Run, State};
use crate::text::{cat, dec, owned, strs, u32_to_dec};

verus! {

/// How Podman is run: its program, storage, mount helper and the
/// variables set for it, in the order they are added.
pub struct PodmanCtx {
    pub podman_path: String,
    pub module: Option<String>,
    pub graphroot: Option<String>,
    pub runroot: Option<String>,
    pub parallax_mount_program: Option<String>,
    pub ro_store: Option<String>,
    pub podman_env: Vec<(String, String)>,
}

/// How the container is run.
pub struct ContainerCtx {
    pub name: String,
    pub interactive: bool,
    pub tty: bool,
    pub detach: bool,
    pub auto_remove: bool,
    pub set_env: bool,
    pub pidfile: Option<String>,
    pub user: Option<String>,
}

/// The names and values of a pair list.
pub open spec fn pairs(v: Seq<(String, String)>) -> Seq<(Seq<char>, Seq<char>)> {
    v.map_values(|p: (String, String)| (p.0@, p.1@))
}

/// The variables the mount helper reads: its user and group, its
/// squashfuse program and its log file.
pub open spec fn mount_env_spec(c: Config) -> Seq<(Seq<char>, Seq<char>)> {
    seq![
        ("PARALLAX_MP_UID"@, dec(c.parallax_mp_uid as nat)),
        ("PARALLAX_MP_GID"@, dec(c.parallax_mp_gid as nat)),
        ("PARALLAX_MP_SQUASHFUSE_CMD"@, c.parallax_mp_squashfuse_path@),
        ("PARALLAX_MP_LOGFILE"@, c.parallax_mp_logfile@),
    ]
}

/// [`mount_env_spec`] as a list.
pub fn mount_env(config: &Config) -> (r: Vec<(String, String)>)
    ensures
        pairs(r@) == mount_env_spec(*config),
{
    let mut v: Vec<(String, String)> = Vec::new();
    v.push((owned("PARALLAX_MP_UID"), u32_to_dec(config.parallax_mp_uid)));
    v.push((owned("PARALLAX_MP_GID"), u32_to_dec(config.parallax_mp_gid)));
    v.push((owned("PARALLAX_MP_SQUASHFUSE_CMD"), config.parallax_mp_squashfuse_path.clone()));
    v.push((owned("PARALLAX_MP_LOGFILE"), config.parallax_mp_logfile.clone()));
    assert(pairs(v@) =~= mount_env_spec(*config));
    v
}

fn some_clone(s: &String) -> (r: Option<String>)
    ensures
        r matches Some(t) && t@ == s@,
{
    Some(s.clone())
}

/// The three contexts of an image import, all with the run's graphroot
/// and the mount helper's variables: reading the shared image store
/// (with the run's runroot), pulling into the run's own storage (with its
/// runroot, without the shared store), and migrating into the shared
/// store (without a runroot).
pub struct PullContexts {
    pub image: String,
    pub ro: PodmanCtx,
    pub local: PodmanCtx,
    pub migrate: PodmanCtx,
}

/// Whether `ctx` is one of the import contexts of `config` for a run
/// directory `tmp`: the given storage choices, the configured Podman and
/// the mount helper's variables.
pub open spec fn import_ctx(ctx: PodmanCtx, config: Config, tmp: Seq<char>, runroot: bool, ro_store: bool) -> bool {
    &&& ctx.podman_path@ == config.podman_path@
    &&& ctx.module is None
    &&& ctx.graphroot matches Some(g) && g@ == tmp + "/graphroot"@
    &&& (if runroot { ctx.runroot matches Some(rr) && rr@ == tmp + "/runroot"@ } else { ctx.runroot is None })
    &&& ctx.parallax_mount_program is None
    &&& (if ro_store {
        ctx.ro_store matches Some(s) && s@ == config.parallax_imagestore@
    } else {
        ctx.ro_store is None
    })
    &&& pairs(ctx.podman_env@) == mount_env_spec(config)
}

fn import_ctx_exec(config: &Config, tmp: &str, runroot: bool, ro_store: bool) -> (r: PodmanCtx)
    ensures
        import_ctx(r, *config, tmp@, runroot, ro_store),
{
    PodmanCtx {
        podman_path: config.podman_path.clone(),
        module: None,
        graphroot: Some(cat(tmp, "/graphroot")),
        runroot: if runroot { Some(cat(tmp, "/runroot")) } else { None },
        parallax_mount_program: None,
        ro_store: if ro_store { some_clone(&config.parallax_imagestore) } else { None },
        podman_env: mount_env(config),
    }
}

/// The contexts of the import of the environment's image into the run's
/// storage; needs the environment definition and the run.
pub fn pull_contexts(state: &State) -> (r: Result<PullContexts, String>)
    ensures
        state.edf is None ==> (r matches Err(m) && m@ == "couldn't find edf"@),
        state.edf is Some && state.run is None ==> (r matches Err(m) && m@ == "couldn't find run"@),
        state.edf matches Some(e) ==> (state.run matches Some(rn) ==> (r matches Ok(p)
            && p.image@ == e.image@
            && import_ctx(p.ro, state.config, rn.podman_tmp_path@, true, true)
            && import_ctx(p.local, state.config, rn.podman_tmp_path@, true, false)
            && import_ctx(p.migrate, state.config, rn.podman_tmp_path@, false, true))),
{
    let e = match &state.edf {
        Some(e) => e,
        None => {
            return Err(owned("couldn't find edf"));
        },
    };
    let rn = match &state.run {
        Some(rn) => rn,
        None => {
            return Err(owned("couldn't find run"));
        },
    };
    let tmp = rn.podman_tmp_path.as_str();
    Ok(PullContexts {
        image: e.image.clone(),
        ro: import_ctx_exec(&state.config, tmp, true, true),
        local: import_ctx_exec(&state.config, tmp, true, false),
        migrate: import_ctx_exec(&state.config, tmp, false, true),
    })
}

/// Where an image import stands.
pub enum PullStep {
    /// Ask whether the shared store has the image.
    CheckShared,
    /// Pull the image into the run's storage.
    PullLocal,
    /// Ask whether the pull left the image in the run's storage.
    CheckLocal,
    /// Migrate the image into the shared store.
    Migrate,
    /// Remove the image from the run's storage.
    RemoveLocal,
    /// Ask whether the shared store has the image now.
    CheckSharedAfter,
    /// The import is over, with its result.
    Finished(Result<(), String>),
}

/// How far along the import a step is.
pub open spec fn pull_rank(s: PullStep) -> nat {
    match s {
        PullStep::CheckShared => 0,
        PullStep::PullLocal => 1,
        PullStep::CheckLocal => 2,
        PullStep::Migrate => 3,
        PullStep::RemoveLocal => 4,
        PullStep::CheckSharedAfter => 5,
        PullStep::Finished(_) => 6,
    }
}

/// The error that ends an import where a check found no image.
pub open spec fn missing_image_error(s: PullStep) -> Seq<char> {
    if s is CheckLocal {
        "Error: podman pull failed, cannot find image in local graphroot"@
    } else {
        "Error: couldn't find image on shared imagestore after migration"@
    }
}

/// The step after `step` once its Podman call gave `outcome`: for a
/// check, whether the image is there; for the other calls the value does
/// not matter. A failed call ends the import with its error, except the
/// removal, whose failure is only logged. The shared store having the
/// image ends the import with success; the image missing after the pull
/// or after the migration ends it with an error. A finished import stays
/// finished.
pub open spec fn pull_transition(step: PullStep, outcome: Result<bool, String>, next: PullStep) -> bool {
    match step {
        PullStep::Finished(res) => next == PullStep::Finished(res),
        PullStep::RemoveLocal => next == PullStep::CheckSharedAfter,
        _ => match outcome {
            Err(e) => next == PullStep::Finished(Err(e)),
            Ok(found) => match step {
                PullStep::CheckShared => if found {
                    next == PullStep::Finished(Ok(()))
                } else {
                    next == PullStep::PullLocal
                },
                PullStep::PullLocal => next == PullStep::CheckLocal,
                PullStep::CheckLocal => if found {
                    next == PullStep::Migrate
                } else {
                    next matches PullStep::Finished(Err(m)) && m@ == missing_image_error(step)
                },
                PullStep::Migrate => next == PullStep::RemoveLocal,
                _ => if found {
                    next == PullStep::Finished(Ok(()))
                } else {
                    next matches PullStep::Finished(Err(m)) && m@ == missing_image_error(step)
                },
            },
        },
    }
}

/// Takes the import one step further: see [`pull_transition`].
pub fn podman_pull_step(step: PullStep, outcome: Result<bool, String>) -> (r: PullStep)
    ensures
        pull_transition(step, outcome, r),
{
    match step {
        PullStep::Finished(res) => PullStep::Finished(res),
        PullStep::RemoveLocal => PullStep::CheckSharedAfter,
        PullStep::CheckShared => match outcome {
            Err(e) => PullStep::Finished(Err(e)),
            Ok(true) => PullStep::Finished(Ok(())),
            Ok(false) => PullStep::PullLocal,
        },
        PullStep::PullLocal => match outcome {
            Err(e) => PullStep::Finished(Err(e)),
            Ok(_) => PullStep::CheckLocal,
        },
        PullStep::CheckLocal => match outcome {
            Err(e) => PullStep::Finished(Err(e)),
            Ok(true) => PullStep::Migrate,
            Ok(false) => PullStep::Finished(Err(owned(
                "Error: podman pull failed, cannot find image in local graphroot",
            ))),
        },
        PullStep::Migrate => match outcome {
            Err(e) => PullStep::Finished(Err(e)),
            Ok(_) => PullStep::RemoveLocal,
        },
        PullStep::CheckSharedAfter => match outcome {
            Err(e) => PullStep::Finished(Err(e)),
            Ok(true) => PullStep::Finished(Ok(())),
            Ok(false) => PullStep::Finished(Err(owned(
                "Error: couldn't find image on shared imagestore after migration",
            ))),
        },
    }
}

/// An import always moves on: each step of an unfinished import leads to
/// a later one, so an import ends after at most six Podman calls.
pub proof fn lemma_pull_progresses(step: PullStep, outcome: Result<bool, String>, next: PullStep)
    requires
        !(step is Finished),
        pull_transition(step, outcome, next),
    ensures
        pull_rank(next) > pull_rank(step),
{
}

/// An import succeeds only where a check of the shared store found the
/// image: at the first check, or at the check after the migration. Each
/// later step is reached only from the step before it in the import, so a
/// success after a pull has gone through the pull, the local check that
/// found the image, the migration and the local removal.
pub proof fn lemma_pull_success_needs_shared_store(step: PullStep, outcome: Result<bool, String>, next: PullStep)
    requires
        !(step is Finished),
        pull_transition(step, outcome, next),
    ensures
        next == PullStep::Finished(Ok(())) ==> (step is CheckShared || step is CheckSharedAfter)
            && outcome == Ok::<bool, String>(true),
        next is PullLocal ==> step is CheckShared && outcome == Ok::<bool, String>(false),
        next is CheckLocal ==> step is PullLocal && outcome is Ok,
        next is Migrate ==> step is CheckLocal && outcome == Ok::<bool, String>(true),
        next is RemoveLocal ==> step is Migrate && outcome is Ok,
        next is CheckSharedAfter ==> step is RemoveLocal,
        !(next is CheckShared),
{
}

/// What starting the container takes: how Podman runs, how the container
/// runs, and the command it runs.
pub struct StartPlan {
    pub run_ctx: PodmanCtx,
    pub container: ContainerCtx,
    pub command: Vec<String>,
}

/// The entry point of the container: it stops itself, so that tasks can
/// join it, and exits once resumed.
pub open spec fn start_command() -> Seq<Seq<char>> {
    seq!["sh"@, "-c"@, "kill -STOP $$ ; exit 0"@]
}

/// The plan of [`podman_start`] for the configuration, the run and the
/// job.
pub open spec fn start_plan(p: StartPlan, config: Config, rn: Run, j: Job) -> bool {
    &&& p.container.name@ == rn.name@
    &&& !p.container.interactive && !p.container.tty
    &&& p.container.detach && p.container.auto_remove && !p.container.set_env
    &&& p.container.pidfile matches Some(f) && f@ == rn.podman_tmp_path@ + "/pidfile"@
    &&& p.container.user matches Some(u) && u@ == dec(j.uid as nat)
    &&& p.run_ctx.podman_path@ == config.podman_path@
    &&& p.run_ctx.module matches Some(md) && md@ == config.podman_module@
    &&& p.run_ctx.graphroot matches Some(g) && g@ == rn.podman_tmp_path@ + "/graphroot"@
    &&& p.run_ctx.runroot matches Some(rr) && rr@ == rn.podman_tmp_path@ + "/runroot"@
    &&& p.run_ctx.parallax_mount_program matches Some(mp) && mp@ == config.parallax_mount_program@
    &&& p.run_ctx.ro_store matches Some(st) && st@ == config.parallax_imagestore@
    &&& pairs(p.run_ctx.podman_env@) == mount_env_spec(config)
    &&& strs(p.command@) == start_command()
}

/// How the container of the run is started: detached and removed on
/// exit, under the run's name and as the job's user, with the pid file in
/// the run directory; Podman with the configured module, the run's
/// storage, the mount helper and the shared store. Needs the environment
/// definition, the run and the job.
pub fn podman_start(state: &State) -> (r: Result<StartPlan, String>)
    ensures
        state.edf is None ==> (r matches Err(m) && m@ == "couldn't find edf"@),
        state.edf is Some && state.run is None ==> (r matches Err(m) && m@ == "couldn't find run"@),
        state.edf is Some && state.run is Some && state.job is None ==> (r matches Err(m)
            && m@ == "couldn't find job"@),
        state.edf is Some ==> (state.run matches Some(rn) ==> (state.job matches Some(j) ==> (
            r matches Ok(p) && start_plan(p, state.config, rn, j)))),
{
    if state.edf.is_none() {
        return Err(owned("couldn't find edf"));
    }
    let rn = match &state.run {
        Some(rn) => rn,
        None => {
            return Err(owned("couldn't find run"));
        },
    };
    let j = match &state.job {
        Some(j) => j,
        None => {
            return Err(owned("couldn't find job"));
        },
    };
    let config = &state.config;
    let tmp = rn.podman_tmp_path.as_str();
    let container = ContainerCtx {
        name: rn.name.clone(),
        interactive: false,
        tty: false,
        detach: true,
        auto_remove: true,
        set_env: false,
        pidfile: Some(cat(tmp, "/pidfile")),
        user: Some(u32_to_dec(j.uid)),
    };
    let run_ctx = PodmanCtx {
        podman_path: config.podman_path.clone(),
        module: some_clone(&config.podman_module),
        graphroot: Some(cat(tmp, "/graphroot")),
        runroot: Some(cat(tmp, "/runroot")),
        parallax_mount_program: some_clone(&config.parallax_mount_program),
        ro_store: some_clone(&config.parallax_imagestore),
        podman_env: mount_env(config),
    };
    let mut command: Vec<String> = Vec::new();
    command.push(owned("sh"));
    command.push(owned("-c"));
    command.push(owned("kill -STOP $$ ; exit 0"));
    assert(strs(command@) =~= start_command());
    Ok(StartPlan { run_ctx, container, command })
}

} // verus!
