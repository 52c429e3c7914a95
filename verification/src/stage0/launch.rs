//! How the plugin starts the helper command: which executable, under which
//! user, with which arguments, and what it keeps of the command's output.
use vstd::prelude::*;
use crate::stage0::config::Stage0Config;
use crate::text::{cat, cat3, owned, str_eq};

verus! {

/// The command line that starts the helper.
pub struct Stage1Invocation {
    /// The program to execute.
    pub program: String,
    /// Its arguments.
    pub args: Vec<String>,
    /// The whole command as one line, for the log.
    pub display: String,
}

/// Why the helper cannot be started.
pub enum LaunchError {
    /// The plugin runs as root outside a compute node.
    RootOutsideRemote,
    /// The plugin runs as root and the job's user is unknown.
    UnknownUsername,
    /// Neither installation path holds the helper; the text is the system path.
    ExecutableNotFound(String),
}

impl LaunchError {
    /// The message of the error.
    pub fn message(&self) -> (r: String)
        ensures
            r@ == launch_error_message(*self),
    {
        match self {
            LaunchError::RootOutsideRemote => owned("Cannot run stage1 as root"),
            LaunchError::UnknownUsername => owned("Unknown username"),
            LaunchError::ExecutableNotFound(p) => cat3("ERROR: cannot find stage1 executable at \"", p.as_str(), "\""),
        }
    }
}

/// The message of a launch error.
pub open spec fn launch_error_message(e: LaunchError) -> Seq<char> {
    match e {
        LaunchError::RootOutsideRemote => "Cannot run stage1 as root"@,
        LaunchError::UnknownUsername => "Unknown username"@,
        LaunchError::ExecutableNotFound(p) => "ERROR: cannot find stage1 executable at \""@ + p@ + "\""@,
    }
}

/// The helper's arguments: `--context C --function F`, then
/// `--payload P` when there is a payload.
pub open spec fn cli_args(context: Seq<char>, function: Seq<char>, payload: Option<Seq<char>>) -> Seq<Seq<char>> {
    seq!["--context"@, context, "--function"@, function] + match payload {
        Some(p) => seq!["--payload"@, p],
        None => Seq::empty(),
    }
}

/// The helper's command line as one text, starting with `exe`.
pub open spec fn cli_line(exe: Seq<char>, context: Seq<char>, function: Seq<char>, payload: Option<Seq<char>>) -> Seq<char> {
    exe + " --context "@ + context + " --function "@ + function + match payload {
        Some(p) => " --payload "@ + p,
        None => Seq::empty(),
    }
}

/// The installation of the helper to use: the user's if it exists, else
/// the system's if it exists, else none.
pub open spec fn chosen_executable(config: Stage0Config, user_exists: bool, system_exists: bool) -> Option<Seq<char>> {
    if user_exists {
        Some(config.stage1_user_path@)
    } else if system_exists {
        Some(config.stage1_system_path@)
    } else {
        None
    }
}

/// What starting the helper comes to: for root only on a compute node and
/// through `su` to the job's user; for anyone else the helper directly.
pub open spec fn launch_spec(
    context: Seq<char>,
    function: Seq<char>,
    payload: Option<Seq<char>>,
    uid: u32,
    username: Option<Seq<char>>,
    config: Stage0Config,
    user_exists: bool,
    system_exists: bool,
) -> Result<(Seq<char>, Seq<Seq<char>>, Seq<char>), LaunchError> {
    if uid == 0 && context != "remote"@ {
        Err(LaunchError::RootOutsideRemote)
    } else if uid == 0 && username is None {
        Err(LaunchError::UnknownUsername)
    } else {
        match chosen_executable(config, user_exists, system_exists) {
            None => Err(LaunchError::ExecutableNotFound(config.stage1_system_path)),
            Some(exe) => if uid == 0 {
                let user = username->0;
                Ok((
                    "/usr/bin/su"@,
                    seq![user, "-c"@, cli_line(exe, context, function, payload)],
                    "/usr/bin/su"@ + " "@ + user + " -c "@ + cli_line(exe, context, function, payload),
                ))
            } else {
                Ok((exe, cli_args(context, function, payload), cli_line(exe, context, function, payload)))
            },
        }
    }
}

/// Whether `s` ends with `t`.
pub open spec fn ends_with(s: Seq<char>, t: Seq<char>) -> bool {
    s.len() >= t.len() && s.skip(s.len() - t.len()) == t
}

/// The helper always receives the environment definition it is given: run
/// directly, its arguments end with `--payload` and the payload; run
/// through `su` as root, the command `su` runs ends with ` --payload ` and
/// the payload. Without a payload, a helper run directly gets exactly the
/// context and hook options.
pub proof fn lemma_payload_reaches_helper(
    context: Seq<char>,
    function: Seq<char>,
    payload: Option<Seq<char>>,
    uid: u32,
    username: Option<Seq<char>>,
    config: Stage0Config,
    user_exists: bool,
    system_exists: bool,
)
    ensures
        launch_spec(context, function, payload, uid, username, config, user_exists, system_exists) matches Ok((p, a, d))
            ==> match payload {
                Some(pl) => if uid == 0 {
                    p == "/usr/bin/su"@ && a.len() == 3 && a[1] == "-c"@ && ends_with(a[2], " --payload "@ + pl)
                } else {
                    a.len() == 6 && a[0] == "--context"@ && a[1] == context && a[2] == "--function"@
                        && a[3] == function && a[4] == "--payload"@ && a[5] == pl
                },
                None => uid != 0 ==> a.len() == 4 && a[0] == "--context"@ && a[1] == context
                    && a[2] == "--function"@ && a[3] == function,
            },
{
    match launch_spec(context, function, payload, uid, username, config, user_exists, system_exists) {
        Ok((p, a, d)) => {
            let exe = chosen_executable(config, user_exists, system_exists)->0;
            let x = exe + " --context "@ + context + " --function "@ + function;
            match payload {
                Some(pl) => {
                    let tail = " --payload "@ + pl;
                    assert(cli_line(exe, context, function, payload) == x + tail);
                    assert((x + tail).skip((x + tail).len() - tail.len()) =~= tail);
                },
                None => {},
            }
        },
        Err(_) => {},
    }
}

/// The view of an optional string.
pub open spec fn opt_seq(o: Option<String>) -> Option<Seq<char>> {
    match o {
        Some(s) => Some(s@),
        None => None,
    }
}

fn cli_line_exec(exe: &str, context: &str, function: &str, payload: &Option<String>) -> (r: String)
    ensures
        r@ == cli_line(exe@, context@, function@, opt_seq(*payload)),
{
    let mut r = owned(exe);
    r.append(" --context ");
    r.append(context);
    r.append(" --function ");
    r.append(function);
    match payload {
        Some(p) => {
            r.append(" --payload ");
            r.append(p.as_str());
        },
        None => {
            assert(r@ + Seq::<char>::empty() =~= r@);
        },
    }
    r
}

fn cli_args_exec(context: &str, function: &str, payload: &Option<String>) -> (r: Vec<String>)
    ensures
        r@.map_values(|s: String| s@) == cli_args(context@, function@, opt_seq(*payload)),
{
    let mut r: Vec<String> = Vec::new();
    r.push(owned("--context"));
    r.push(owned(context));
    r.push(owned("--function"));
    r.push(owned(function));
    match payload {
        Some(p) => {
            r.push(owned("--payload"));
            r.push(p.clone());
        },
        None => {},
    }
    assert(r@.map_values(|s: String| s@) =~= cli_args(context@, function@, opt_seq(*payload)));
    r
}

/// Decides how to start the helper for the hook `function` in `context`,
/// given the user id the plugin runs under, the job's user name, the
/// configuration, and whether the two installation paths exist.
pub fn plan_stage1_launch(
    context: &str,
    function: &str,
    payload: &Option<String>,
    uid: u32,
    username: &Option<String>,
    config: &Stage0Config,
    user_exists: bool,
    system_exists: bool,
) -> (r: Result<Stage1Invocation, LaunchError>)
    ensures
        match launch_spec(context@, function@, opt_seq(*payload), uid, opt_seq(*username), *config, user_exists, system_exists) {
            Ok((p, a, d)) => r matches Ok(inv) && inv.program@ == p && inv.args@.map_values(|s: String| s@) == a
                && inv.display@ == d,
            Err(e) => r matches Err(e2) && e2 == e,
        },
{
    if uid == 0 && !str_eq(context, "remote") {
        return Err(LaunchError::RootOutsideRemote);
    }
    if uid == 0 && username.is_none() {
        return Err(LaunchError::UnknownUsername);
    }
    let exe = if user_exists {
        config.stage1_user_path.clone()
    } else if system_exists {
        config.stage1_system_path.clone()
    } else {
        return Err(LaunchError::ExecutableNotFound(config.stage1_system_path.clone()));
    };
    let line = cli_line_exec(exe.as_str(), context, function, payload);
    if uid == 0 {
        let user = username.clone().unwrap();
        let program = owned("/usr/bin/su");
        let mut args: Vec<String> = Vec::new();
        args.push(user.clone());
        args.push(owned("-c"));
        args.push(line.clone());
        let mut display = cat3("/usr/bin/su", " ", user.as_str());
        display.append(" -c ");
        display.append(line.as_str());
        assert(args@.map_values(|s: String| s@) =~= seq![user@, "-c"@, line@]);
        Ok(Stage1Invocation { program, args, display })
    } else {
        let args = cli_args_exec(context, function, payload);
        Ok(Stage1Invocation { program: exe, args, display: line })
    }
}

/// The value to give `HOME` before the helper runs: the job's `HOME`, for
/// the task-start hook, when it is not empty.
pub fn home_for_stage1(function: &str, job_home: &str) -> (r: Option<String>)
    ensures
        r is Some == (function@ == "task_init"@ && job_home@ != ""@),
        r matches Some(h) ==> h@ == job_home@,
{
    if str_eq(function, "task_init") && !str_eq(job_home, "") {
        Some(owned(job_home))
    } else {
        None
    }
}

/// The helper's answer: the last line it printed, or `{}` when it printed
/// none.
pub fn stage1_output(lines: &Vec<String>) -> (r: String)
    ensures
        lines@.len() == 0 ==> r@ == "{}"@,
        lines@.len() > 0 ==> r@ == lines@.last()@,
{
    if lines.len() == 0 {
        owned("{}")
    } else {
        lines[lines.len() - 1].clone()
    }
}

} // verus!
