use slurm_oddity::envmap::EnvMap;
use slurm_oddity::stage0::config::Stage0Config;
use slurm_oddity::stage0::iodata::{DataExchange, DataSource, Stage0Args};
use slurm_oddity::stage1::autoupdate::{
    au2data, data2au, fetch_plan, get_current_version, get_requested_exe_path, get_source_file_path,
    get_target_file_path, needs_fetch, record_after_fetch, Fetch,
};
use slurm_oddity::stage1::config::{
    build_query_input, config_cache_file_path, config_key, get_auto_update_data_from_json, get_cache_dir_path,
    launch_control_query_url, update_config_from_json, update_config_from_value, Config, ConfigHooks, ConfigKey,
    LaunchControlQuery,
};
use slurm_oddity::stage1::dispatch::{dispatch_execution, set_function_set, Handler};
use slurm_oddity::stage1::edf::{modify_edf_for_sbatch, sbatch_mount_request};
use slurm_oddity::stage1::iodata::{DataAutoUpdate, DataForward, IOData};
use slurm_oddity::stage1::jobenv::{jobenv_cache_file, load_jobarg_from_data, load_jobenv, load_jobenv_from_data};
use slurm_oddity::stage1::json::JsonValue;
use slurm_oddity::stage1::log::{log_dir, log_owner, prune_step, set_log_filename, PruneStep};
use slurm_oddity::stage1::podman::{mount_env, podman_pull_step, podman_start, pull_contexts, PullStep};
use slurm_oddity::stage1::slurmstepd::{
    announce, container_data, job_get_info, podman_get_pid_from_file, podman_pidfile, remote_unset_env_vars,
    run_get_info, run_names, PidError, PidfileRead,
};
use slurm_oddity::stage1::state::{exe_args_line, get_local_task_id, load_state, Args, Context, Edf, Function, Job, Run, State};
use slurm_oddity::stage1::sync::{
    all_tasks_completed, completed_dir_to_remove, entrypoint_wait_step, is_global_task_0, is_local_task_0, is_node_0,
    parse_pull_result, pidfile_wait_step, podman_pidfile_path, podman_start_failure_path, pull_done_line,
    pull_wait_outcome, read_podman_start_state, setup_folders, shared_cleanup_target, sync_podman_stop_plan,
    trim_end_str, trim_str, PodmanStartState, StartStateError, WaitStep,
};
use slurm_oddity::stage1::sync::{
    after_start, marker_notice, stale_marker_outcome, sync_podman_start_role, MarkerAction, MarkerRemoval, StartRole,
};

fn env(pairs: &[(&str, &str)]) -> EnvMap {
    let mut e = EnvMap::new();
    for (k, v) in pairs {
        e.insert(k.to_string(), v.to_string());
    }
    e
}

fn config() -> Config {
    Config {
        edf_system_search_path: "/etc/edf".to_string(),
        hooks: ConfigHooks { parallax_imagestore_create: "".to_string() },
        launch_control_repository: "".to_string(),
        launch_control_cache_path: "".to_string(),
        parallax_imagestore: "/store".to_string(),
        parallax_imagestore_keepalive: false,
        parallax_mount_program: "/usr/bin/mount-program".to_string(),
        parallax_path: "/usr/bin/parallax".to_string(),
        parallax_mp_uid: 1000,
        parallax_mp_gid: 100,
        parallax_mp_logfile: "/tmp/mp.log".to_string(),
        parallax_mp_squashfuse_path: "/usr/bin/squashfuse".to_string(),
        perfmon: false,
        podman_module: "hpc".to_string(),
        podman_path: "/usr/bin/podman".to_string(),
        podman_tmp_path: "/dev/shm/podman".to_string(),
        runtime_path: "".to_string(),
        skybox_enabled: true,
        tracking_enabled: false,
        tracking_tool: "".to_string(),
        poison: false,
    }
}

fn job(stepid: u32, local: u32, global: u32, node: u32) -> Job {
    Job {
        uid: 1000, gid: 100, jobid: 42, stepid, local_task_id: local, global_task_id: global, nodeid: node,
        local_task_count: 2, total_task_count: 4, cwd: "/home/u".to_string(), euid: 1000, egid: 100,
    }
}

fn edf() -> Edf {
    Edf { image: "ubuntu:24.04".to_string(), env: env(&[("A", "1"), ("B", "")]), workdir: "/w".to_string(), mounts: vec![] }
}

fn state(context: Context) -> State {
    load_state(
        Args { context, function: Function::TaskInit, payload: None },
        config(),
        vec!["./job.sh".to_string(), "x".to_string()],
        env(&[("SLURM_JOB_ID", "42")]),
        Some("alice".to_string()),
        "/usr/bin/stage1".to_string(),
        &vec!["stage1".to_string(), "--context".to_string(), "remote".to_string()],
    )
}

fn iodata(context: &str, function: &str, poison: bool) -> IOData {
    let mut c = config();
    c.poison = poison;
    IOData {
        source: DataSource {
            version: "0.1.0".to_string(),
            args: Stage0Args { payload: None },
            config: Stage0Config { stage1_user_path: "".to_string(), stage1_system_path: "".to_string() },
        },
        exchange: DataExchange {
            container: None,
            local2remote: "".to_string(),
            payload: None,
            job_arg: vec!["./job.sh".to_string()],
            job_env: env(&[("X", "1")]),
            slurm_context: context.to_string(),
            slurm_function: function.to_string(),
            stage1_log_file: "".to_string(),
            stage1_function_set: vec![],
        },
        forward: Some(DataForward { config: c, auto_update: None }),
    }
}

fn obj(entries: Vec<(&str, JsonValue)>) -> JsonValue {
    JsonValue::Object(entries.into_iter().map(|(k, v)| (k.to_string(), v)).collect())
}

fn s(v: &str) -> JsonValue {
    JsonValue::Str(v.to_string())
}

#[test]
fn state_at_start() {
    let st = state(Context::Remote);
    assert_eq!(st.log_file, "");
    assert_eq!(st.exe_user, "alice");
    assert_eq!(st.exe_args, "--context remote");
    assert!(st.edf.is_none() && st.job.is_none() && st.run.is_none());
    assert_eq!(exe_args_line(&vec!["p".to_string()]), "");
    let st = load_state(Args { context: Context::Local, function: Function::Init, payload: None }, config(), vec![],
        EnvMap::new(), None, "/x".to_string(), &vec!["p".to_string(), "a".to_string(), "b".to_string()]);
    assert_eq!(st.exe_user, "unknown_user");
    assert_eq!(st.exe_args, "a b");
}

#[test]
fn job_from_environment() {
    let e = env(&[
        ("SLURM_JOB_ID", "42"), ("SLURM_STEP_ID", "4294967291"), ("SLURM_LOCALID", "1"), ("SLURM_PROCID", "3"),
        ("SLURM_NODEID", "x"), ("SLURM_TASKS_PER_NODE", "2"), ("PWD", "/work"),
    ]);
    let j = job_get_info(&e, 1, 2, 3, 4);
    assert_eq!((j.uid, j.gid, j.euid, j.egid), (1, 2, 3, 4));
    assert_eq!(j.jobid, 42);
    assert_eq!(j.stepid, 0xfffffffb);
    assert_eq!(j.local_task_id, 1);
    assert_eq!(j.global_task_id, 3);
    assert_eq!(j.nodeid, u32::MAX);
    assert_eq!(j.local_task_count, 2);
    assert_eq!(j.total_task_count, u32::MAX);
    assert_eq!(j.cwd, "/work");
    let j = job_get_info(&EnvMap::new(), 0, 0, 0, 0);
    assert_eq!(j.jobid, u32::MAX);
    assert_eq!(j.cwd, "");
}

#[test]
fn run_names_and_paths() {
    let r = run_names(&config(), &job(3, 0, 0, 0));
    assert_eq!(r.name, "slurm-oddity_42.3");
    assert_eq!(r.podman_tmp_path, "/dev/shm/podman/slurm-oddity_42.3");
    assert_eq!(r.syncfile_path, "/store/.slurm-oddity_42.3_import.done");
    assert_eq!(r.pid, usize::MAX);
    let r = run_names(&config(), &job(0xfffffffb, 0, 0, 0));
    assert_eq!(r.name, "slurm-oddity_42.batch");
    assert_eq!(podman_pidfile(&r), "/dev/shm/podman/slurm-oddity_42.batch/pidfile");
}

#[test]
fn pid_from_pidfile() {
    let r = run_names(&config(), &job(1, 0, 0, 0));
    let some = Some(r);
    assert_eq!(podman_get_pid_from_file(&some, PidfileRead::Contents("1234".to_string())).ok(), Some(1234));
    match podman_get_pid_from_file(&some, PidfileRead::Contents("1234\n".to_string())) {
        Err(e) => {
            assert!(matches!(e, PidError::NotANumber(_)));
            assert_eq!(e.message(), "cannot convert 1234\n to number");
        },
        Ok(_) => panic!("the file's whole text is parsed"),
    }
    match podman_get_pid_from_file(&some, PidfileRead::Missing) {
        Err(e) => assert_eq!(e.message(), "/dev/shm/podman/slurm-oddity_42.1/pidfile NOT FOUND!"),
        Ok(_) => panic!("expected an error"),
    }
    match podman_get_pid_from_file(&some, PidfileRead::Unreadable) {
        Err(e) => assert_eq!(e.message(), "cannot read pid from /dev/shm/podman/slurm-oddity_42.1/pidfile"),
        Ok(_) => panic!("expected an error"),
    }
    match podman_get_pid_from_file(&None, PidfileRead::Missing) {
        Err(e) => assert_eq!(e.message(), "couldn't find run data"),
        Ok(_) => panic!("expected an error"),
    }
}

#[test]
fn variables_to_unset_and_the_announcement() {
    let e = env(&[("A", ""), ("B", "1"), ("C", ""), ("A", "")]);
    assert_eq!(remote_unset_env_vars(&e), vec!["A".to_string(), "C".to_string()]);
    assert_eq!(remote_unset_env_vars(&EnvMap::new()), Vec::<String>::new());
    assert_eq!(announce(&iodata("remote", "task_init", false)), "I am BLUE living cat!\n");
    assert_eq!(announce(&iodata("remote", "task_init", true)), "I am BLUE dead cat!\n");
}

#[test]
fn container_report() {
    let mut r = run_names(&config(), &job(1, 0, 0, 0));
    r.pid = 4321;
    let dc = container_data(&edf(), &r).unwrap();
    assert_eq!(dc.pid, 4321);
    assert_eq!(dc.workdir, "/w");
    assert_eq!(dc.env.get("A"), Some("1".to_string()));
    r.pid = (u32::MAX as usize) + 1;
    assert!(container_data(&edf(), &r).is_none());
}

#[test]
fn task_roles() {
    let mut st = state(Context::Remote);
    assert!(!is_local_task_0(&st) && !is_global_task_0(&st) && !is_node_0(&st));
    st.job = Some(job(1, 0, 5, 0));
    assert!(is_local_task_0(&st) && !is_global_task_0(&st) && is_node_0(&st));
    assert_eq!(get_local_task_id(&st), 0);
}

#[test]
fn run_directory_files() {
    assert_eq!(podman_start_failure_path("/run/x"), "/run/x/.podman-start.failed");
    assert_eq!(podman_pidfile_path("/run/x"), "/run/x/pidfile");
    assert_eq!(podman_pidfile_path("/run/x/"), "/run/x/pidfile");
}

#[test]
fn trimming_like_str_trim() {
    for t in ["  a b \n", "\t\r\n", "", "x", "\u{3000}y\u{a0}", " 12\n"] {
        assert_eq!(trim_str(t), t.trim());
        assert_eq!(trim_end_str(t), t.trim_end());
    }
}

#[test]
fn import_marker_round_trip() {
    for r in [0, -1, 1, i32::MIN, i32::MAX] {
        let line = pull_done_line(r);
        assert_eq!(line, format!("{r}\n"));
        assert_eq!(parse_pull_result(&line), Some(r));
    }
    assert_eq!(parse_pull_result("  7  "), None);
    assert_eq!(parse_pull_result("7  \n"), Some(7));
    assert_eq!(parse_pull_result("x"), None);
    assert!(pull_wait_outcome(0).is_ok());
    assert_eq!(pull_wait_outcome(-1), Err("Error: image importer exited with -1".to_string()));
}

#[test]
fn start_state_from_run_directory() {
    let r = read_podman_start_state("/r", Some(true), PidfileRead::Contents("1".to_string()));
    assert!(matches!(r, Ok(PodmanStartState::Failed)));
    let r = read_podman_start_state("/r", Some(false), PidfileRead::Missing);
    assert!(matches!(r, Ok(PodmanStartState::Pending)));
    let r = read_podman_start_state("/r", Some(false), PidfileRead::Contents(" 987\n".to_string()));
    assert!(matches!(r, Ok(PodmanStartState::Started(987))));
    match read_podman_start_state("/r", Some(false), PidfileRead::Contents("abc\n".to_string())) {
        Err(e) => {
            assert!(matches!(e, StartStateError::InvalidPid { .. }));
            assert_eq!(e.message("invalid digit found in string"),
                "invalid PID `abc` in container PID file `/r/pidfile`: invalid digit found in string");
        },
        Ok(_) => panic!("expected an error"),
    }
    match read_podman_start_state("/r", None, PidfileRead::Missing) {
        Err(e) => assert_eq!(e.message("denied"), "failed to inspect Podman startup failure marker `/r/.podman-start.failed`: denied"),
        Ok(_) => panic!("expected an error"),
    }
    match read_podman_start_state("/r", Some(false), PidfileRead::Unreadable) {
        Err(e) => assert_eq!(e.message("io"), "failed to read container PID file `/r/pidfile`: io"),
        Ok(_) => panic!("expected an error"),
    }
}

#[test]
fn waiting_for_the_container() {
    assert!(matches!(pidfile_wait_step(0, &PodmanStartState::Started(5), 1), WaitStep::Proceed(5)));
    match pidfile_wait_step(0, &PodmanStartState::Failed, 1) {
        WaitStep::Fail(m) => assert_eq!(m, "Podman container startup failed on local task 0"),
        _ => panic!(),
    }
    assert!(matches!(pidfile_wait_step(0, &PodmanStartState::Pending, 1), WaitStep::Retry { attempts: 1, log: true }));
    assert!(matches!(pidfile_wait_step(1, &PodmanStartState::Pending, 1), WaitStep::Retry { attempts: 2, log: false }));
    assert!(matches!(pidfile_wait_step(49, &PodmanStartState::Pending, 1), WaitStep::Retry { attempts: 50, log: true }));
    match pidfile_wait_step(599, &PodmanStartState::Pending, 3) {
        WaitStep::Fail(m) => assert_eq!(m, "task 3 - Timed out waiting for Podman container to start on local task 0"),
        _ => panic!(),
    }
    // Counting the polls: the wait gives up at the 600th.
    let mut attempts = 0;
    let mut polls = 0;
    loop {
        polls += 1;
        match pidfile_wait_step(attempts, &PodmanStartState::Pending, 0) {
            WaitStep::Retry { attempts: a, .. } => attempts = a,
            _ => break,
        }
    }
    assert_eq!(polls, 600);
    assert!(matches!(entrypoint_wait_step(7, true, 9), WaitStep::Proceed(9)));
    assert!(matches!(entrypoint_wait_step(2998, false, 9), WaitStep::Retry { attempts: 2999, log: false }));
    match entrypoint_wait_step(2999, false, 9) {
        WaitStep::Fail(m) => assert_eq!(m, "container entrypoint process 9 did not complete."),
        _ => panic!(),
    }
}

#[test]
fn stop_and_cleanup_plans() {
    let mut st = state(Context::Remote);
    assert_eq!(sync_podman_stop_plan(&st).err(), Some("Error: cannot find run structure".to_string()));
    assert_eq!(completed_dir_to_remove(&st).err(), Some("Error: couldn't find podman_tmp_path".to_string()));
    assert_eq!(setup_folders(&st).err(), Some("Error: couldn't find podman_tmp_path".to_string()));
    let j = job(1, 1, 1, 0);
    st.run = Some(run_names(&st.config, &j));
    assert_eq!(sync_podman_stop_plan(&st).err(), Some("Error: cannot find job structure".to_string()));
    assert!(matches!(shared_cleanup_target(&st), Ok(None)));
    st.job = Some(j);
    let p = sync_podman_stop_plan(&st).ok().unwrap();
    assert_eq!(p.completed_dir, "/dev/shm/podman/slurm-oddity_42.1/completed");
    assert_eq!(p.completed_file, "/dev/shm/podman/slurm-oddity_42.1/completed/task_1.exit");
    assert_eq!(p.task_count, 2);
    assert_eq!(completed_dir_to_remove(&st).ok(), Some("/dev/shm/podman/slurm-oddity_42.1/completed".to_string()));
    assert_eq!(shared_cleanup_target(&st).ok(), Some(Some("/store/.slurm-oddity_42.1_import.done".to_string())));
    assert_eq!(setup_folders(&st).ok(), Some(vec![
        "/dev/shm/podman/slurm-oddity_42.1".to_string(),
        "/dev/shm/podman/slurm-oddity_42.1/graphroot".to_string(),
        "/dev/shm/podman/slurm-oddity_42.1/runroot".to_string(),
    ]));
    assert!(all_tasks_completed(2, 2));
    assert!(!all_tasks_completed(1, 2));
    assert!(all_tasks_completed((1usize << 32) + 2, 2) == (((1usize << 32) + 2) as u32 == 2));
}

#[test]
fn image_import_contexts_and_steps() {
    let mut st = state(Context::Remote);
    assert_eq!(pull_contexts(&st).err(), Some("couldn't find edf".to_string()));
    st.edf = Some(edf());
    assert_eq!(pull_contexts(&st).err(), Some("couldn't find run".to_string()));
    st.run = Some(run_names(&st.config, &job(1, 0, 0, 0)));
    let p = pull_contexts(&st).ok().unwrap();
    assert_eq!(p.image, "ubuntu:24.04");
    assert_eq!(p.ro.graphroot, Some("/dev/shm/podman/slurm-oddity_42.1/graphroot".to_string()));
    assert_eq!(p.ro.ro_store, Some("/store".to_string()));
    assert_eq!(p.local.ro_store, None);
    assert_eq!(p.migrate.runroot, None);
    assert_eq!(p.ro.podman_env.len(), 4);
    let menv = mount_env(&st.config);
    assert_eq!(menv[0], ("PARALLAX_MP_UID".to_string(), "1000".to_string()));
    assert_eq!(menv[1], ("PARALLAX_MP_GID".to_string(), "100".to_string()));

    // Already in the shared store.
    assert!(matches!(podman_pull_step(PullStep::CheckShared, Ok(true)), PullStep::Finished(Ok(()))));
    // The whole import.
    let mut step = PullStep::CheckShared;
    let answers = [Ok(false), Ok(true), Ok(true), Ok(true), Err("rmi failed".to_string()), Ok(true)];
    for a in answers {
        step = podman_pull_step(step, a);
    }
    assert!(matches!(step, PullStep::Finished(Ok(()))));
    match podman_pull_step(PullStep::CheckLocal, Ok(false)) {
        PullStep::Finished(Err(m)) => assert_eq!(m, "Error: podman pull failed, cannot find image in local graphroot"),
        _ => panic!(),
    }
    match podman_pull_step(PullStep::CheckSharedAfter, Ok(false)) {
        PullStep::Finished(Err(m)) => assert_eq!(m, "Error: couldn't find image on shared imagestore after migration"),
        _ => panic!(),
    }
    match podman_pull_step(PullStep::PullLocal, Err("network".to_string())) {
        PullStep::Finished(Err(m)) => assert_eq!(m, "network"),
        _ => panic!(),
    }
}

#[test]
fn container_start_plan() {
    let mut st = state(Context::Remote);
    assert_eq!(podman_start(&st).err(), Some("couldn't find edf".to_string()));
    st.edf = Some(edf());
    assert_eq!(podman_start(&st).err(), Some("couldn't find run".to_string()));
    st.run = Some(run_names(&st.config, &job(1, 0, 0, 0)));
    assert_eq!(podman_start(&st).err(), Some("couldn't find job".to_string()));
    st.job = Some(job(1, 0, 0, 0));
    let p = podman_start(&st).ok().unwrap();
    assert_eq!(p.command, vec!["sh", "-c", "kill -STOP $$ ; exit 0"]);
    assert_eq!(p.container.name, "slurm-oddity_42.1");
    assert_eq!(p.container.user, Some("1000".to_string()));
    assert_eq!(p.container.pidfile, Some("/dev/shm/podman/slurm-oddity_42.1/pidfile".to_string()));
    assert!(p.container.detach && p.container.auto_remove && !p.container.tty);
    assert_eq!(p.run_ctx.module, Some("hpc".to_string()));
    assert_eq!(p.run_ctx.parallax_mount_program, Some("/usr/bin/mount-program".to_string()));
}

#[test]
fn batch_script_mount() {
    let mut st = state(Context::Remote);
    st.edf = Some(edf());
    st.job = Some(job(1, 0, 0, 0));
    assert_eq!(sbatch_mount_request(&st), None);
    modify_edf_for_sbatch(&mut st, true);
    assert!(st.edf.as_ref().unwrap().mounts.is_empty());
    st.job = Some(job(0xfffffffb, 0, 0, 0));
    assert_eq!(sbatch_mount_request(&st), Some("./job.sh:./job.sh:bind,ro,nosuid,nodev,private".to_string()));
    // A mount the parser refuses leaves the definition as it is.
    modify_edf_for_sbatch(&mut st, false);
    assert!(st.edf.as_ref().unwrap().mounts.is_empty());
    modify_edf_for_sbatch(&mut st, true);
    assert_eq!(st.edf.as_ref().unwrap().mounts, vec!["./job.sh:./job.sh:bind,ro,nosuid,nodev,private".to_string()]);
    st.job_arg = vec![];
    assert_eq!(sbatch_mount_request(&st), None);
    modify_edf_for_sbatch(&mut st, true);
    assert_eq!(st.edf.as_ref().unwrap().mounts.len(), 1);
}

#[test]
fn dispatch_and_function_sets() {
    assert!(matches!(dispatch_execution(&iodata("local", "init_post_opt", false)), Some(Handler::SrunInitPostOpt)));
    assert!(matches!(dispatch_execution(&iodata("remote", "task_exit", false)), Some(Handler::SlurmstepdTaskExit)));
    assert!(dispatch_execution(&iodata("local", "task_init", false)).is_none());
    assert!(dispatch_execution(&iodata("allocator", "init_post_opt", false)).is_none());
    let mut d = iodata("remote", "init_post_opt", false);
    set_function_set(&mut d, &Handler::SlurmstepdInitPostOpt);
    assert_eq!(d.exchange.stage1_function_set, vec!["init_post_opt", "task_init", "task_exit", "exit"]);
    set_function_set(&mut d, &Handler::SlurmstepdTaskInit);
    assert_eq!(d.exchange.stage1_function_set.len(), 4);
    set_function_set(&mut d, &Handler::SrunInitPostOpt);
    assert_eq!(d.exchange.stage1_function_set, vec!["init_post_opt"]);
}

#[test]
fn helper_log_files() {
    let job_env = env(&[("HOME", "/home/j"), ("SLURM_JOB_ID", "42"), ("HOSTNAME", "n1")]);
    let proc_env = env(&[("HOME", "/root"), ("HOSTNAME", "login")]);
    assert_eq!(log_dir(&Context::Remote, &job_env, &proc_env), "/home/j/.local/share/slurm-oddity/log");
    assert_eq!(log_dir(&Context::Allocator, &job_env, &EnvMap::new()), "/tmp");
    assert_eq!(set_log_filename(&Context::Remote, "/l", &job_env, &proc_env, "20250101"),
        Ok("/l/20250101_unknown/job_42/n1_stage1.log".to_string()));
    assert_eq!(set_log_filename(&Context::Local, "/l", &job_env, &proc_env, "20250101"),
        Ok("/l/20250101_unknown/local_login_stage1.log".to_string()));
    assert_eq!(set_log_filename(&Context::Allocator, "/l", &job_env, &proc_env, "d"), Err("Cannot set log filename".to_string()));
    let mut st = state(Context::Remote);
    assert_eq!(log_owner(&st), (None, None));
    st.job = Some(job(1, 0, 0, 0));
    assert_eq!(log_owner(&st), (Some(1000), Some(100)));
    let mut st = state(Context::Local);
    st.job = Some(job(1, 0, 0, 0));
    assert_eq!(log_owner(&st), (None, None));
}

#[test]
fn configuration_updates_from_the_service() {
    assert!(matches!(config_key("podman_path"), ConfigKey::PodmanPath));
    assert!(matches!(config_key("nonsense"), ConfigKey::Other));
    let mut c = config();
    update_config_from_value(&mut c, &obj(vec![
        ("podman_path", s("/a")), ("podman_path", s("/b")), ("perfmon", JsonValue::Bool(true)),
        ("parallax_mp_uid", JsonValue::Number(Some(7))), ("parallax_mp_gid", JsonValue::Number(Some(1u64 << 40))),
        ("poison", JsonValue::Bool(true)), ("hooks", obj(vec![("parallax_imagestore_create", s("mk"))])),
        ("runtime_path", JsonValue::Number(Some(1))),
    ]));
    assert_eq!(c.podman_path, "/b");
    assert!(c.perfmon);
    assert_eq!(c.parallax_mp_uid, 7);
    assert_eq!(c.parallax_mp_gid, 100);
    assert!(!c.poison);
    assert_eq!(c.hooks.parallax_imagestore_create, "mk");
    assert_eq!(c.runtime_path, "");
    let mut c2 = config();
    update_config_from_value(&mut c2, &s("not an object"));
    assert_eq!(c2.podman_path, "/usr/bin/podman");

    let answer = obj(vec![("config", obj(vec![("podman_tmp_path", s("/tmp/p"))]))]);
    let c3 = update_config_from_json(&config(), &answer);
    assert_eq!(c3.podman_tmp_path, "/tmp/p");
    let c4 = update_config_from_json(&config(), &obj(vec![]));
    assert_eq!(c4.podman_tmp_path, "/dev/shm/podman");
}

#[test]
fn configuration_updates_compose() {
    // Two answers one after the other update as their entries at once.
    let e1 = || vec![("podman_path", s("/one")), ("perfmon", JsonValue::Bool(true))];
    let e2 = || vec![("podman_path", s("/two")), ("tracking_tool", s("t"))];
    let mut a = config();
    update_config_from_value(&mut a, &obj(e1()));
    update_config_from_value(&mut a, &obj(e2()));
    let mut b = config();
    update_config_from_value(&mut b, &obj(e1().into_iter().chain(e2()).collect()));
    assert_eq!(a.podman_path, b.podman_path);
    assert_eq!(a.perfmon, b.perfmon);
    assert_eq!(a.tracking_tool, b.tracking_tool);
    assert_eq!(a.podman_path, "/two");
}

#[test]
fn auto_update_requests() {
    let au = get_auto_update_data_from_json(&obj(vec![("stage1_repository", s("/repo")), ("stage1_version", s("0.2.0"))]));
    let au = au.unwrap();
    assert_eq!(au.repository, "/repo");
    assert_eq!(au.version, "0.2.0");
    assert!(get_auto_update_data_from_json(&obj(vec![("stage1_repository", s("/repo"))])).is_none());
    assert!(get_auto_update_data_from_json(&obj(vec![("stage1_repository", s("/r")), ("stage1_version", JsonValue::Null)])).is_none());
    assert_eq!(get_current_version(), "0.1.0");
    let e = env(&[("HOME", "/home/u")]);
    let target = get_target_file_path("0.2.0", &e);
    assert_eq!(target, "/home/u/.local/share/slurm-oddity/cache/stage1/0.2.0/stage1");
    assert!(needs_fetch("0.1.0", &au, false));
    assert!(!needs_fetch("0.2.0", &au, false));
    assert!(!needs_fetch("0.1.0", &au, true));
    assert!(record_after_fetch(true, true));
    assert!(!record_after_fetch(true, false));
    assert_eq!(get_source_file_path(&au), Some("/repo/0.2.0/stage1".to_string()));
    let remote = DataAutoUpdate { repository: "https://h/r/".to_string(), version: "0.3".to_string() };
    assert_eq!(get_source_file_path(&remote), Some("https://h/r/0.3/stage1".to_string()));
    let neither = DataAutoUpdate { repository: "repo".to_string(), version: "0.3".to_string() };
    assert_eq!(get_source_file_path(&neither), Some("".to_string()));
    assert!(fetch_plan(&neither, "/t").is_err());
    match fetch_plan(&DataAutoUpdate { repository: "/repo".to_string(), version: "0.2.0".to_string() }, "/t") {
        Ok(Some(Fetch::Copy { source, target })) => {
            assert_eq!(source, "/repo/0.2.0/stage1");
            assert_eq!(target, "/t");
        },
        _ => panic!("expected a copy"),
    }
    match fetch_plan(&DataAutoUpdate { repository: "https://h/r".to_string(), version: "0.2.0".to_string() }, "/t") {
        Ok(Some(Fetch::Download { url, .. })) => assert_eq!(url, "https://h/0.2.0/stage1"),
        _ => panic!("expected a download"),
    }
    assert_eq!(get_requested_exe_path("/bin/stage1", &None, &e, true), "/bin/stage1");
    assert_eq!(get_requested_exe_path("/bin/stage1", &Some(au), &e, false), "/bin/stage1");
    let mut d = iodata("local", "init_post_opt", false);
    assert!(data2au(&d).is_none());
    au2data(&DataAutoUpdate { repository: "r".to_string(), version: "v".to_string() }, &mut d);
    assert_eq!(data2au(&d).unwrap().version, "v");
}

#[test]
fn launch_control_query() {
    let mut c = config();
    assert!(matches!(launch_control_query_url(&c), LaunchControlQuery::Skip));
    c.launch_control_repository = "not a url".to_string();
    assert!(matches!(launch_control_query_url(&c), LaunchControlQuery::Skip));
    c.launch_control_repository = "https://lc.example.org/api/".to_string();
    match launch_control_query_url(&c) {
        LaunchControlQuery::Ask(u) => assert_eq!(u, "https://lc.example.org/get_config"),
        _ => panic!("expected a query"),
    }
    let q = build_query_input(&env(&[("SLURM_JOB_ID", "5"), ("USER", "bob")]), Some("grp".to_string()));
    assert_eq!(q.get("job"), Some("5".to_string()));
    assert_eq!(q.get("system"), Some("UNKNOWN".to_string()));
    assert_eq!(q.get("account"), Some("grp".to_string()));
    assert_eq!(q.get("user"), Some("bob".to_string()));
}

#[test]
fn cache_paths() {
    let e = env(&[("HOME", "/home/u"), ("SLURM_STAGE0_CALLER_ID", "n_job_1_step_0_task_3")]);
    let dir = get_cache_dir_path(&e).unwrap();
    assert_eq!(dir, "/home/u/.local/share/slurm-oddity/cache/n_job_1_step_0_task_3");
    assert_eq!(config_cache_file_path(&dir), Some("/home/u/.local/share/slurm-oddity/cache/n_job_1_step_0/config.json".to_string()));
    assert!(get_cache_dir_path(&env(&[("HOME", "/h")])).is_none());
    assert_eq!(jobenv_cache_file("/c"), "/c/jobenv.json");
}

#[test]
fn job_environment_from_cache_and_data() {
    let m = load_jobenv(Some(obj(vec![("A", s("1")), ("B", s("2")), ("A", s("3"))])));
    assert_eq!(m.get("A"), Some("3".to_string()));
    assert_eq!(m.len(), 2);
    assert_eq!(load_jobenv(Some(obj(vec![("A", s("1")), ("B", JsonValue::Null)]))).len(), 0);
    assert_eq!(load_jobenv(None).len(), 0);
    assert_eq!(load_jobenv(Some(s("x"))).len(), 0);
    let d = iodata("remote", "task_init", false);
    assert_eq!(load_jobenv_from_data(&d).get("X"), Some("1".to_string()));
    assert_eq!(load_jobarg_from_data(&d), vec!["./job.sh".to_string()]);
}

#[test]
fn run_marker_left_untouched_for_other_fields() {
    let r: Run = run_names(&config(), &job(2, 0, 0, 0));
    assert_eq!(r.syncfile_path, "/store/.slurm-oddity_42.2_import.done");
}

#[test]
fn pruning_empty_log_directories() {
    assert!(matches!(prune_step("job_42", Some(0)), PruneStep::Remove { last: false }));
    assert!(matches!(prune_step("slurm-oddity", Some(0)), PruneStep::Remove { last: true }));
    assert!(matches!(prune_step("slurm-oddity", Some(1)), PruneStep::Stop));
    assert!(matches!(prune_step("x", None), PruneStep::Stop));
}

#[test]
fn run_with_pid_from_pidfile() {
    let r = run_get_info(&config(), &job(3, 0, 0, 0), PidfileRead::Contents("4242".to_string()));
    assert_eq!(r.pid, 4242);
    assert_eq!(r.name, "slurm-oddity_42.3");
    assert_eq!(r.podman_tmp_path, "/dev/shm/podman/slurm-oddity_42.3");
    let r = run_get_info(&config(), &job(3, 0, 0, 0), PidfileRead::Contents("4242\n".to_string()));
    assert_eq!(r.pid, usize::MAX);
    let r = run_get_info(&config(), &job(3, 0, 0, 0), PidfileRead::Missing);
    assert_eq!(r.pid, usize::MAX);
    let r = run_get_info(&config(), &job(3, 0, 0, 0), PidfileRead::Unreadable);
    assert_eq!(r.pid, usize::MAX);
}

#[test]
fn container_start_roles_and_marker() {
    let mut st = state(Context::Remote);
    assert_eq!(sync_podman_start_role(&st).err(), Some("couldn't find run".to_string()));
    st.run = Some(run_names(&st.config, &job(1, 0, 0, 0)));
    match sync_podman_start_role(&st) {
        Ok(StartRole::Waiter { run_path }) => assert_eq!(run_path, "/dev/shm/podman/slurm-oddity_42.1"),
        _ => panic!("without a job the task only waits"),
    }
    st.job = Some(job(1, 0, 3, 0));
    match sync_podman_start_role(&st) {
        Ok(StartRole::Starter { run_path, marker }) => {
            assert_eq!(run_path, "/dev/shm/podman/slurm-oddity_42.1");
            assert_eq!(marker, "/dev/shm/podman/slurm-oddity_42.1/.podman-start.failed");
        },
        _ => panic!("local task 0 starts the container"),
    }
    st.job = Some(job(1, 1, 0, 0));
    assert!(matches!(sync_podman_start_role(&st), Ok(StartRole::Waiter { .. })));

    assert!(stale_marker_outcome("/m", MarkerRemoval::Removed).is_ok());
    assert!(stale_marker_outcome("/m", MarkerRemoval::Absent).is_ok());
    assert_eq!(stale_marker_outcome("/m", MarkerRemoval::Failed("denied".to_string())),
        Err("failed to remove stale Podman startup failure marker `/m`: denied".to_string()));
    let (a, r) = after_start("/m", Ok(()));
    assert!(matches!(a, MarkerAction::Leave) && r.is_ok());
    let (a, r) = after_start("/m", Err("podman failed".to_string()));
    assert!(matches!(a, MarkerAction::Create(ref p) if p == "/m"));
    assert_eq!(r, Err("podman failed".to_string()));
    assert_eq!(marker_notice("/m", "io"),
        "failed to notify sibling tasks of Podman startup failure: failed to create Podman startup failure marker `/m`: io");
}
