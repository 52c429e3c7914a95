use slurm_oddity::envmap::EnvMap;
use slurm_oddity::stage0::args::{add_arg, load_plugin_args, option_specs, plugin_args, set_arg_payload, SpankArg};
use slurm_oddity::stage0::config::{
    configfile_path, expand_raw_config_fields, expand_raw_option_string, get_default_stage1_system_path,
    get_default_stage1_user_path, load_config, load_configfile_path, remote_load_config, task_init_adjust_config,
    ConfigFile, RawStage0Config, Stage0Config,
};
use slurm_oddity::stage0::containers::{
    container_env_plan, locale_unset_plan, container_workdir, cwd_retry, namespace_paths, parse_environ, split_nul_records,
    split_once_eq, EnvAction, EnvironError,
};
use slurm_oddity::stage0::dispatch::{enabled_by_payload, hook_context, hook_function, hook_proceeds, Hook};
use slurm_oddity::stage0::iodata::{
    fresh_args_needed, get_job_env, iodata_init_needed, local2remote_action, new_iodata, runs_hook, update_iodata,
    IOData, IODataError, Local2RemoteAction, Stage0Args,
};
use slurm_oddity::stage0::launch::{home_for_stage1, plan_stage1_launch, stage1_output, LaunchError};
use slurm_oddity::stage0::log::{
    error_destination, format_error_chain, get_log_dirpath, log_dir, needs_chown, set_log_filename,
    ErrorDestination, SpankContext,
};
use slurm_oddity::stage0::state::{
    get_cache_dir_path, get_local_task_id, local_caller_id, local_load_state, remote_caller_id, remote_load_state,
    remote_logdir, home_from_passwd, split_field, RemoteFacts, Stage0State,
};
use std::collections::HashMap;

fn env(pairs: &[(&str, &str)]) -> EnvMap {
    let mut e = EnvMap::new();
    for (k, v) in pairs {
        e.insert(k.to_string(), v.to_string());
    }
    e
}

fn to_hash(e: &EnvMap) -> HashMap<String, String> {
    (0..e.len()).map(|i| (e.key_at(i), e.value_at(i))).collect()
}

fn cfg(u: &str, s: &str) -> Stage0Config {
    Stage0Config { stage1_user_path: u.to_string(), stage1_system_path: s.to_string() }
}

#[test]
fn default_paths() {
    assert_eq!(get_default_stage1_user_path(), "$HOME/.local/share/slurm-oddity/bin/stage1");
    assert_eq!(get_default_stage1_system_path(), "/usr/bin/stage1");
    assert_eq!(configfile_path(None), "/etc/slurm-oddity-stage0.conf");
    assert_eq!(configfile_path(Some("/x.conf".to_string())), "/x.conf");
}

#[test]
fn config_without_file_expands_defaults() {
    let e = env(&[("HOME", "/home/u")]);
    let c = load_configfile_path(ConfigFile::Missing, &e).ok().unwrap();
    assert_eq!(c.stage1_user_path, "/home/u/.local/share/slurm-oddity/bin/stage1");
    assert_eq!(c.stage1_system_path, "/usr/bin/stage1");
    // Without HOME the default stays as written.
    let c = load_config(ConfigFile::Missing, &EnvMap::new()).ok().unwrap();
    assert_eq!(c.stage1_user_path, "$HOME/.local/share/slurm-oddity/bin/stage1");
}

#[test]
fn config_file_entries_are_expanded_and_missing_ones_defaulted() {
    let e = env(&[("PREFIX", "/opt")]);
    let raw = RawStage0Config { stage1_user_path: Some("${PREFIX}/bin/stage1".to_string()), stage1_system_path: None };
    let c = load_configfile_path(ConfigFile::Loaded(raw), &e).ok().unwrap();
    assert_eq!(c.stage1_user_path, "/opt/bin/stage1");
    // An absent entry takes its default unexpanded.
    let raw = RawStage0Config { stage1_user_path: None, stage1_system_path: Some("/s".to_string()) };
    let c = load_configfile_path(ConfigFile::Loaded(raw), &e).ok().unwrap();
    assert_eq!(c.stage1_user_path, "$HOME/.local/share/slurm-oddity/bin/stage1");
    assert_eq!(c.stage1_system_path, "/s");
}

#[test]
fn unreadable_config_file_is_an_error() {
    let r = load_config(ConfigFile::Unreadable("bad toml".to_string()), &EnvMap::new());
    match r {
        Err(e) => assert_eq!(e.message, "bad toml"),
        Ok(_) => panic!("expected an error"),
    }
}

#[test]
fn raw_option_expansion() {
    let e = env(&[("A", "x")]);
    let mut o = Some("$A/y".to_string());
    assert!(expand_raw_option_string(&mut o, &e).is_ok());
    assert_eq!(o, Some("x/y".to_string()));
    let mut n: Option<String> = None;
    assert!(expand_raw_option_string(&mut n, &e).is_ok());
    assert_eq!(n, None);
    let mut r = RawStage0Config { stage1_user_path: Some("$A".to_string()), stage1_system_path: Some("$NOPE".to_string()) };
    assert!(expand_raw_config_fields(&mut r, &e).is_ok());
    assert_eq!(r.stage1_user_path, Some("x".to_string()));
    assert_eq!(r.stage1_system_path, Some("$NOPE".to_string()));
    let from = Stage0Config::from(RawStage0Config { stage1_user_path: None, stage1_system_path: None });
    assert_eq!(from.stage1_system_path, "/usr/bin/stage1");
}

#[test]
fn remote_config_and_task_adjustment() {
    let job = env(&[("SLURM_STAGE1_USER_BIN", "/u/stage1"), ("HOME", "/home/j")]);
    let c = remote_load_config(&job);
    assert_eq!(c.stage1_user_path, "/u/stage1");
    assert_eq!(c.stage1_system_path, "");
    let c = task_init_adjust_config(&cfg("$HOME/bin/stage1", "/usr/bin/stage1"), &job).ok().unwrap();
    assert_eq!(c.stage1_user_path, "/home/j/bin/stage1");
}

#[test]
fn launch_as_user() {
    let inv = plan_stage1_launch("local", "init_post_opt", &Some("edf".to_string()), 1000, &None,
        &cfg("/u/stage1", "/s/stage1"), true, true).ok().unwrap();
    assert_eq!(inv.program, "/u/stage1");
    assert_eq!(inv.args, vec!["--context", "local", "--function", "init_post_opt", "--payload", "edf"]);
    assert_eq!(inv.display, "/u/stage1 --context local --function init_post_opt --payload edf");
    let inv = plan_stage1_launch("remote", "exit", &None, 1000, &None, &cfg("/u", "/s"), false, true).ok().unwrap();
    assert_eq!(inv.program, "/s");
    assert_eq!(inv.args, vec!["--context", "remote", "--function", "exit"]);
}

#[test]
fn launch_as_root_goes_through_su() {
    let inv = plan_stage1_launch("remote", "task_exit", &None, 0, &Some("alice".to_string()),
        &cfg("/u", "/s"), false, true).ok().unwrap();
    assert_eq!(inv.program, "/usr/bin/su");
    assert_eq!(inv.args, vec!["alice", "-c", "/s --context remote --function task_exit"]);
    assert_eq!(inv.display, "/usr/bin/su alice -c /s --context remote --function task_exit");
}

#[test]
fn launch_errors() {
    let r = plan_stage1_launch("local", "init_post_opt", &None, 0, &Some("a".to_string()), &cfg("/u", "/s"), true, true);
    assert!(matches!(r, Err(LaunchError::RootOutsideRemote)));
    let r = plan_stage1_launch("remote", "exit", &None, 0, &None, &cfg("/u", "/s"), true, true);
    assert!(matches!(r, Err(LaunchError::UnknownUsername)));
    let r = plan_stage1_launch("remote", "exit", &None, 5, &None, &cfg("/u", "/s"), false, false);
    match r {
        Err(e) => {
            assert!(matches!(e, LaunchError::ExecutableNotFound(_)));
            assert_eq!(e.message(), "ERROR: cannot find stage1 executable at \"/s\"");
        },
        Ok(_) => panic!("expected an error"),
    }
    assert_eq!(LaunchError::RootOutsideRemote.message(), "Cannot run stage1 as root");
    assert_eq!(LaunchError::UnknownUsername.message(), "Unknown username");
}

#[test]
fn launch_helpers() {
    assert_eq!(home_for_stage1("task_init", "/home/j"), Some("/home/j".to_string()));
    assert_eq!(home_for_stage1("task_init", ""), None);
    assert_eq!(home_for_stage1("exit", "/home/j"), None);
    assert_eq!(stage1_output(&vec![]), "{}");
    assert_eq!(stage1_output(&vec!["a".to_string(), "{\"x\":1}".to_string()]), "{\"x\":1}");
}

#[test]
fn proc_paths() {
    let (u, m) = namespace_paths(42);
    assert_eq!(u, "/proc/42/ns/user");
    assert_eq!(m, "/proc/42/ns/mnt");
    assert_eq!(container_workdir(42, ""), "/proc/42/cwd");
    assert_eq!(container_workdir(42, "/work"), "/work");
}

#[test]
fn cwd_retry_counts_and_gives_up() {
    let r = cwd_retry(0);
    assert_eq!(r.attempts, 1);
    assert!(r.log && !r.give_up);
    let r = cwd_retry(1);
    assert!(!r.log);
    let r = cwd_retry(49);
    assert!(r.log);
    let r = cwd_retry(599);
    assert!(r.give_up);
}

#[test]
fn environ_records() {
    let bytes = b"A=1\0B=x=y\0\0C=\0".to_vec();
    let recs = split_nul_records(&bytes);
    assert_eq!(recs.len(), 4);
    assert_eq!(split_once_eq("B=x=y"), Some(("B".to_string(), "x=y".to_string())));
    assert_eq!(split_once_eq("novalue"), None);
    let e = parse_environ(&b"A=1\0B=x=y\0C=\0".to_vec()).ok().unwrap();
    let h = to_hash(&e);
    assert_eq!(h.get("A").map(|s| s.as_str()), Some("1"));
    assert_eq!(h.get("B").map(|s| s.as_str()), Some("x=y"));
    assert_eq!(h.get("C").map(|s| s.as_str()), Some(""));
    assert!(matches!(parse_environ(&b"A=1\0junk\0".to_vec()), Err(EnvironError::MissingSeparator(ref s)) if s == "junk"));
    assert!(matches!(parse_environ(&vec![0xff, b'=', b'1']), Err(EnvironError::InvalidUtf8)));
    assert_eq!(EnvironError::MissingSeparator("junk".to_string()).message(), "couldn't parse environ value junk");
    assert_eq!(EnvironError::InvalidUtf8.message(), "environ is not valid UTF-8");
}

fn apply(job: &HashMap<String, String>, plan: &[EnvAction]) -> HashMap<String, String> {
    let mut e = job.clone();
    for a in plan {
        match a {
            EnvAction::Unset(k) => {
                e.remove(k);
            },
            EnvAction::Assign { name, value, overwrite } => {
                if *overwrite || !e.contains_key(name) {
                    e.insert(name.clone(), value.clone());
                }
            },
        }
    }
    e
}

#[test]
fn container_environment_import() {
    let edf = env(&[("FOO", "edf"), ("KEEP", ""), ("LANG", "C.UTF-8")]);
    let cont = env(&[("PATH", "/usr/bin"), ("FOO", "cont"), ("ONLY_CONT", "1")]);
    let job: HashMap<String, String> = [
        ("FOO", "job"), ("KEEP", "jobval"), ("LC_ALL", "de_DE"), ("LANGUAGE", "de"), ("HOME", "/home/j"),
        ("PATH", "/job/bin"),
    ].iter().map(|(a, b)| (a.to_string(), b.to_string())).collect();
    let plan = container_env_plan(&edf, &cont);
    let out = apply(&job, &plan);
    assert_eq!(out.get("FOO").map(|s| s.as_str()), Some("edf"));
    assert_eq!(out.get("KEEP").map(|s| s.as_str()), Some("jobval"));
    assert_eq!(out.get("LANG").map(|s| s.as_str()), Some("C.UTF-8"));
    assert_eq!(out.get("LC_ALL"), None);
    assert_eq!(out.get("LANGUAGE"), None);
    assert_eq!(out.get("PATH").map(|s| s.as_str()), Some("/usr/bin"));
    assert_eq!(out.get("ONLY_CONT").map(|s| s.as_str()), Some("1"));
    assert_eq!(out.get("HOME").map(|s| s.as_str()), Some("/home/j"));
    // The plan itself: locale removals, then the definition, then the container.
    let edf = env(&[("FOO", "edf"), ("KEEP", ""), ("LANG", "C.UTF-8")]);
    let cont = env(&[("PATH", "/usr/bin"), ("FOO", "cont"), ("KEEP", "c")]);
    let plan: Vec<String> = container_env_plan(&edf, &cont).iter().map(|a| match a {
        EnvAction::Unset(k) => format!("unset {k}"),
        EnvAction::Assign { name, value, overwrite } => format!("set {name}={value} {overwrite}"),
    }).collect();
    assert_eq!(plan, vec![
        "unset LANGUAGE", "unset LC_ALL", "set FOO=edf true", "set LANG=C.UTF-8 true",
        "set PATH=/usr/bin true", "set FOO=cont false",
    ]);
    let unsets: Vec<String> = locale_unset_plan(&edf).iter().map(|a| match a {
        EnvAction::Unset(k) => k.clone(),
        EnvAction::Assign { name, .. } => format!("assign {name}"),
    }).collect();
    assert_eq!(unsets, vec!["LANGUAGE", "LC_ALL"]);
    // An empty definition with no job value leaves the variable unset.
    let plan = container_env_plan(&env(&[("EMPTY", "")]), &EnvMap::new());
    assert_eq!(apply(&HashMap::new(), &plan).get("EMPTY"), None);
}

#[test]
fn plugin_arguments() {
    let args = plugin_args();
    assert_eq!(args.len(), 1);
    assert_eq!(args[0].name, "payload");
    let specs = option_specs("stage0", &args);
    assert_eq!(specs[0].usage, "[stage0] the path to the Environment Definition File to use.");
    assert_eq!(specs[0].value, Some("PATH".to_string()));
    let v = add_arg(vec![], SpankArg { name: "x".to_string(), value: "".to_string(), usage: "".to_string(), has_arg: false });
    assert_eq!(v.len(), 1);
    let specs = option_specs("p", &v);
    assert_eq!(specs[0].value, None);
    let mut a = Stage0Args { payload: None };
    assert_eq!(set_arg_payload(&mut a, "".to_string()), Err("--payload: argument required".to_string()));
    assert_eq!(a.payload, None);
    assert!(set_arg_payload(&mut a, "edf.toml".to_string()).is_ok());
    assert_eq!(a.payload, Some("edf.toml".to_string()));
    assert!(load_plugin_args(&mut a, None).is_ok());
    assert_eq!(a.payload, Some("edf.toml".to_string()));
}

#[test]
fn hooks() {
    assert_eq!(hook_function(&Hook::TaskInitPrivileged), "task_init_privileged");
    assert_eq!(hook_context(&Hook::InitPostOpt, &SpankContext::Local), Some("local".to_string()));
    assert_eq!(hook_context(&Hook::TaskInit, &SpankContext::Local), Some("remote".to_string()));
    assert_eq!(hook_context(&Hook::TaskInitPrivileged, &SpankContext::Local), None);
    assert_eq!(hook_context(&Hook::Exit, &SpankContext::Slurmd), Some("slurmd".to_string()));
    assert!(hook_proceeds(&Hook::InitPostOpt, false));
    assert!(!hook_proceeds(&Hook::TaskExit, false));
    assert!(enabled_by_payload(&Some("x".to_string())));
    assert!(!enabled_by_payload(&None));
}

fn sample_iodata(context: &str, function: &str) -> IOData {
    new_iodata("0.1.0".to_string(), Stage0Args { payload: None }, cfg("/u", "/s"), "/log".to_string(),
        Some("edf".to_string()), vec!["a".to_string()], EnvMap::new(), context.to_string(), function.to_string())
}

#[test]
fn iodata_lifecycle() {
    assert!(iodata_init_needed(&None, "init_post_opt"));
    assert!(!iodata_init_needed(&None, "task_init"));
    assert!(fresh_args_needed("local", "init_post_opt"));
    assert!(!fresh_args_needed("remote", "init_post_opt"));

    let mut current: Option<IOData> = None;
    let r = update_iodata(&mut current, None, "remote", "task_init", None, EnvMap::new(), None);
    match r {
        Err(e) => {
            assert!(matches!(e, IODataError::NotInitialized));
            assert_eq!(e.message(), "ERROR: IOData is not initialized!");
        },
        Ok(_) => panic!("expected an error"),
    }
    assert!(current.is_none());

    let fresh = sample_iodata("local", "init_post_opt");
    let r = update_iodata(&mut current, Some(fresh), "local", "init_post_opt", Some("p".to_string()),
        env(&[("A", "1")]), Some(Stage0Args { payload: Some("p".to_string()) }));
    assert!(r.is_ok());
    let d = current.as_ref().unwrap();
    assert_eq!(d.exchange.slurm_function, "init_post_opt");
    assert_eq!(d.source.args.payload, Some("p".to_string()));
    assert_eq!(d.exchange.job_env.get("A"), Some("1".to_string()));

    let r = update_iodata(&mut current, None, "remote", "task_init", None, EnvMap::new(), None);
    match r {
        Err(e) => assert_eq!(e.message(), "ERROR: Jump of context from local to remote"),
        Ok(_) => panic!("expected an error"),
    }
    assert_eq!(current.as_ref().unwrap().exchange.slurm_function, "init_post_opt");
}

#[test]
fn helper_takes_part_in_hooks_it_listed() {
    let mut d = sample_iodata("remote", "init_post_opt");
    d.exchange.stage1_function_set = vec!["task_init".to_string(), "exit".to_string()];
    assert!(runs_hook(&d, "task_init"));
    assert!(runs_hook(&d, "exit"));
    assert!(!runs_hook(&d, "task_exit"));
}

#[test]
fn local2remote_publication() {
    assert!(matches!(local2remote_action(&None), Local2RemoteAction::Keep));
    let mut d = sample_iodata("local", "init_post_opt");
    assert!(matches!(local2remote_action(&Some(d)), Local2RemoteAction::Remove));
    d = sample_iodata("allocator", "init_post_opt");
    d.exchange.local2remote = "{\"image\":\"x\"}".to_string();
    match local2remote_action(&Some(d)) {
        Local2RemoteAction::Publish(s) => assert_eq!(s, "{\"image\":\"x\"}"),
        _ => panic!("expected publication"),
    }
    let mut d = sample_iodata("remote", "task_init");
    d.exchange.local2remote = "x".to_string();
    assert!(matches!(local2remote_action(&Some(d)), Local2RemoteAction::Keep));
}

#[test]
fn job_environment_from_entries() {
    let e = get_job_env(&vec!["A=1".to_string(), "B=x=y".to_string(), "A=2".to_string()], Some(3));
    assert_eq!(e.get("A"), Some("2".to_string()));
    assert_eq!(e.get("B"), Some("x=y".to_string()));
    assert_eq!(e.get("SLURM_NODEID"), Some("3".to_string()));
    let e = get_job_env(&vec!["SLURM_NODEID=7".to_string()], Some(3));
    assert_eq!(e.get("SLURM_NODEID"), Some("7".to_string()));
    let e = get_job_env(&vec![], None);
    assert_eq!(e.len(), 0);
}

#[test]
fn logging_places() {
    assert!(matches!(error_destination(SpankContext::Local), ErrorDestination::User));
    assert!(matches!(error_destination(SpankContext::Slurmd), ErrorDestination::Tracing));
    assert_eq!(format_error_chain(&vec!["outer".to_string(), "inner".to_string()]), "outer: inner");
    assert_eq!(format_error_chain(&vec!["only".to_string()]), "only");
    assert_eq!(get_log_dirpath("/home/u"), "/home/u/cosmodrome");
    let job = env(&[("HOME", "/home/j")]);
    let proc_env = env(&[("HOME", "/root")]);
    assert_eq!(log_dir(&SpankContext::Remote, &job, &proc_env), "/home/j/.local/share/slurm-oddity/log");
    assert_eq!(log_dir(&SpankContext::Local, &job, &proc_env), "/root/.local/share/slurm-oddity/log");
    assert_eq!(log_dir(&SpankContext::Local, &job, &EnvMap::new()), "/tmp");
    let p = set_log_filename(&SpankContext::Local, "/l", &job, &env(&[("HOSTNAME", "h")]), "20240101");
    assert_eq!(p, Ok("/l/20240101_unknown/local_h_stage0.log".to_string()));
    let p = set_log_filename(&SpankContext::Remote, "/l", &env(&[("SLURM_JOB_ID", "9"), ("SLURM_TOPOLOGY_ADDR", "n1"),
        ("CLUSTER_NAME", "c")]), &EnvMap::new(), "20240101");
    assert_eq!(p, Ok("/l/20240101_c/job_9/n1_stage0.log".to_string()));
    let p = set_log_filename(&SpankContext::Remote, "/l", &EnvMap::new(), &EnvMap::new(), "d");
    assert_eq!(p, Err("Cannot set log filename for remote context".to_string()));
    let p = set_log_filename(&SpankContext::Slurmd, "/l", &EnvMap::new(), &EnvMap::new(), "d");
    assert_eq!(p, Err("Cannot set log filename".to_string()));
    assert!(needs_chown(Some(1), None, 2, 0));
    assert!(!needs_chown(Some(1), Some(2), 1, 2));
    assert!(!needs_chown(None, None, 1, 2));
}

#[test]
fn caller_ids_and_local_task() {
    assert_eq!(local_caller_id(&Some("h".to_string()), 12), "h_pid_12");
    assert_eq!(local_caller_id(&None, 12), "unknown_hostname_pid_12");
    assert_eq!(remote_caller_id(&Some("n".to_string()), Some(5), Some(0), Some(-1)), "n_job_5_step_0_task_-1");
    assert_eq!(remote_caller_id(&Some("n".to_string()), None, None, None), "n_job_unknown");
    let mut s = Stage0State::default();
    assert_eq!(get_local_task_id(&s), u32::MAX);
    s.job_env = env(&[("SLURM_LOCALID", "3")]);
    assert_eq!(get_local_task_id(&s), 3);
    s.job_env = env(&[("SLURM_LOCALID", "x")]);
    assert_eq!(get_local_task_id(&s), u32::MAX);
    assert_eq!(remote_logdir("None", &Some("5".to_string())), None);
    assert_eq!(remote_logdir("/l", &Some("5".to_string())), Some("/l/job_5".to_string()));
    assert_eq!(remote_logdir("/l", &None), Some("/l".to_string()));
}

#[test]
fn cache_directory() {
    let mut s = Stage0State::default();
    let proc_env = env(&[("HOME", "/home/p")]);
    assert_eq!(get_cache_dir_path(&s, &proc_env), Some("".to_string()));
    s.caller_id = Some("h_pid_1".to_string());
    assert_eq!(get_cache_dir_path(&s, &proc_env), Some("/home/p/.local/share/slurm-oddity/cache/h_pid_1".to_string()));
    s.job_env = env(&[("HOME", "/home/j")]);
    assert_eq!(get_cache_dir_path(&s, &proc_env), Some("/home/j/.local/share/slurm-oddity/cache/h_pid_1".to_string()));
    s.job_env = env(&[("X", "1")]);
    assert_eq!(get_cache_dir_path(&s, &proc_env), None);
}

#[test]
fn state_loading_on_both_sides() {
    let mut s = Stage0State::default();
    let changes = local_load_state(&mut s, "/home/u", "alice".to_string(), &Some("h".to_string()), 9);
    let pairs: Vec<(String, Option<String>)> = changes.into_iter().map(|c| (c.name, c.value)).collect();
    assert_eq!(pairs, vec![
        ("SLURM_STAGE0_LOGDIR".to_string(), Some("/home/u/cosmodrome".to_string())),
        ("SLURM_STAGE0_USERNAME".to_string(), Some("alice".to_string())),
        ("SLURM_STAGE0_CALLER_ID".to_string(), Some("h_pid_9".to_string())),
    ]);
    assert_eq!(s.caller_id, Some("h_pid_9".to_string()));

    let mut s = Stage0State::default();
    let facts = RemoteFacts {
        job_id: Some(77), step_id: Some(1), task_id: Some(2), uid: Some(1000), gid: None,
        logdir: "/home/u/cosmodrome".to_string(), username: "None".to_string(), local2remote: "{}".to_string(),
        hostname: Some("n3".to_string()), job_arg: vec!["./run.sh".to_string()], job_env: env(&[("A", "b")]),
    };
    let changes = remote_load_state(&mut s, facts);
    let pairs: Vec<(String, Option<String>)> = changes.into_iter().map(|c| (c.name, c.value)).collect();
    assert_eq!(pairs, vec![
        ("SLURM_STAGE0_JOBID".to_string(), Some("77".to_string())),
        ("SLURM_STAGE0_LOGDIR".to_string(), Some("/home/u/cosmodrome/job_77".to_string())),
        ("SLURM_STAGE0_USERNAME".to_string(), None),
        ("SLURM_STAGE0_UID".to_string(), Some("1000".to_string())),
        ("SLURM_STAGE0_GID".to_string(), None),
        ("SLURM_STAGE0_CALLER_ID".to_string(), Some("n3_job_77_step_1_task_2".to_string())),
        ("SLURM_STAGE0_LOCAL2REMOTE_DATA".to_string(), Some("{}".to_string())),
    ]);
    assert_eq!(s.jobid, Some("77".to_string()));
    assert_eq!(s.username, None);
    assert_eq!(s.uid, Some(1000));
    assert_eq!(s.job_arg, vec!["./run.sh".to_string()]);
    assert_eq!(s.job_env.get("A"), Some("b".to_string()));
}

#[test]
fn passwd_home_field() {
    assert_eq!(home_from_passwd("alice:x:1000:100:Alice:/home/alice:/bin/bash\n", 1000), Ok("/home/alice".to_string()));
    assert_eq!(home_from_passwd("a:b:c:d:e:", 7), Ok("".to_string()));
    assert_eq!(home_from_passwd("a:b:c", 7), Err("Output command error: getent passwd 7, cannot find homedir field.".to_string()));
    for (s, n) in [("a::b", 1), ("a::b", 2), ("", 0), ("x", 1), (":", 1)] {
        assert_eq!(split_field(s, ':', n), s.split(':').nth(n).map(|x| x.to_string()), "{s} {n}");
    }
}
