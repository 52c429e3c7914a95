//! The plugin's configuration: where the helper command is installed.
use vstd::prelude::*;
use crate::envmap::EnvMap;
use crate::expand::{env_expand, spec_env_expand};
use crate::text::owned;

verus! {

/// Where the plugin looks for its configuration file.
pub const CONFIGFILE_PATH: &'static str = "/etc/slurm-oddity-stage0.conf";

/// The configuration as written in the file: each entry may be absent.
pub struct RawStage0Config {
    pub stage1_user_path: Option<String>,
    pub stage1_system_path: Option<String>,
}

/// The configuration in use: where to find the helper command, first in
/// the user's installation, then in the system's.
pub struct Stage0Config {
    pub stage1_user_path: String,
    pub stage1_system_path: String,
}

/// What was found at the configuration file's path.
pub enum ConfigFile {
    /// No file at the path.
    Missing,
    /// The file, read and parsed.
    Loaded(RawStage0Config),
    /// The file exists but could not be read or parsed; the message says why.
    Unreadable(String),
}

/// Why the configuration could not be loaded.
pub struct ConfigError {
    pub message: String,
}

/// The default user installation path of the helper command, before expansion.
pub open spec fn default_user_path() -> Seq<char> {
    "$HOME/.local/share/slurm-oddity/bin/stage1"@
}

/// The default system installation path of the helper command.
pub open spec fn default_system_path() -> Seq<char> {
    "/usr/bin/stage1"@
}

/// `s` with its variables expanded from `env`, or `s` itself when a
/// variable is missing.
pub open spec fn expand_or_keep(s: Seq<char>, env: Map<Seq<char>, Seq<char>>) -> Seq<char> {
    match spec_env_expand(s, env) {
        Some(e) => e,
        None => s,
    }
}

/// The value of an optional entry after expansion.
pub open spec fn expand_opt(o: Option<Seq<char>>, env: Map<Seq<char>, Seq<char>>) -> Option<Seq<char>> {
    match o {
        Some(s) => Some(expand_or_keep(s, env)),
        None => None,
    }
}

/// The view of an optional string.
pub open spec fn opt_str(o: Option<String>) -> Option<Seq<char>> {
    match o {
        Some(s) => Some(s@),
        None => None,
    }
}

/// An entry's value, or the default when absent.
pub open spec fn or_default(o: Option<Seq<char>>, d: Seq<char>) -> Seq<char> {
    match o {
        Some(s) => s,
        None => d,
    }
}

/// The default user installation path of the helper command.
pub fn get_default_stage1_user_path() -> (r: String)
    ensures
        r@ == default_user_path(),
{
    owned("$HOME/.local/share/slurm-oddity/bin/stage1")
}

/// The default system installation path of the helper command.
pub fn get_default_stage1_system_path() -> (r: String)
    ensures
        r@ == default_system_path(),
{
    owned("/usr/bin/stage1")
}

impl Stage0Config {
    /// The configuration that a file's entries give: an absent entry takes
    /// its default.
    pub fn from(r: RawStage0Config) -> (c: Stage0Config)
        ensures
            c.stage1_user_path@ == or_default(opt_str(r.stage1_user_path), default_user_path()),
            c.stage1_system_path@ == or_default(opt_str(r.stage1_system_path), default_system_path()),
    {
        Stage0Config {
            stage1_user_path: match r.stage1_user_path {
                Some(s) => s,
                None => get_default_stage1_user_path(),
            },
            stage1_system_path: match r.stage1_system_path {
                Some(s) => s,
                None => get_default_stage1_system_path(),
            },
        }
    }

    /// A copy of the configuration.
    pub fn duplicate(&self) -> (c: Stage0Config)
        ensures
            c.stage1_user_path@ == self.stage1_user_path@,
            c.stage1_system_path@ == self.stage1_system_path@,
    {
        Stage0Config {
            stage1_user_path: self.stage1_user_path.clone(),
            stage1_system_path: self.stage1_system_path.clone(),
        }
    }
}

/// Expands the variables of `s` from `env`; when a variable is missing the
/// text is kept as it is, so this never fails.
pub fn expand_vars_string(s: String, env: &EnvMap) -> (r: Result<String, ConfigError>)
    ensures
        r matches Ok(e) && e@ == expand_or_keep(s@, env@),
{
    match env_expand(s.as_str(), env) {
        Some(e) => Ok(e),
        None => Ok(s),
    }
}

/// Expands the variables of an optional entry in place.
pub fn expand_raw_option_string(optstr: &mut Option<String>, env: &EnvMap) -> (r: Result<(), ConfigError>)
    ensures
        r is Ok,
        opt_str(*final(optstr)) == expand_opt(opt_str(*old(optstr)), env@),
{
    if optstr.is_some() {
        let original = optstr.clone().unwrap();
        let updated = expand_vars_string(original, env)?;
        *optstr = Some(updated);
    }
    Ok(())
}

/// Expands the variables of both entries in place.
pub fn expand_raw_config_fields(r: &mut RawStage0Config, env: &EnvMap) -> (res: Result<(), ConfigError>)
    ensures
        res is Ok,
        opt_str(final(r).stage1_user_path) == expand_opt(opt_str(old(r).stage1_user_path), env@),
        opt_str(final(r).stage1_system_path) == expand_opt(opt_str(old(r).stage1_system_path), env@),
{
    expand_raw_option_string(&mut r.stage1_user_path, env)?;
    expand_raw_option_string(&mut r.stage1_system_path, env)?;
    Ok(())
}

/// The configuration that `file` gives, with `env` the environment that
/// variables are expanded from.
pub open spec fn loaded_config(file: ConfigFile, env: Map<Seq<char>, Seq<char>>) -> Option<(Seq<char>, Seq<char>)> {
    match file {
        ConfigFile::Missing => Some(
            (expand_or_keep(default_user_path(), env), expand_or_keep(default_system_path(), env)),
        ),
        ConfigFile::Loaded(raw) => Some(
            (
                or_default(expand_opt(opt_str(raw.stage1_user_path), env), default_user_path()),
                or_default(expand_opt(opt_str(raw.stage1_system_path), env), default_system_path()),
            ),
        ),
        ConfigFile::Unreadable(_) => None,
    }
}

/// The path of the configuration file: the one given, else the standard one.
pub fn configfile_path(configfile_path_option: Option<String>) -> (r: String)
    ensures
        r@ == or_default(opt_str(configfile_path_option), CONFIGFILE_PATH@),
{
    match configfile_path_option {
        Some(path) => path,
        None => owned(CONFIGFILE_PATH),
    }
}

/// Loads the configuration from what was found at the configuration
/// file's path. Without a file, both defaults are used, expanded; with one,
/// its entries are expanded and an absent entry takes its default as is.
pub fn load_configfile_path(file: ConfigFile, env: &EnvMap) -> (r: Result<Stage0Config, ConfigError>)
    ensures
        match loaded_config(file, env@) {
            Some((u, s)) => r matches Ok(c) && c.stage1_user_path@ == u && c.stage1_system_path@ == s,
            None => r matches Err(e) && file matches ConfigFile::Unreadable(m) && e.message@ == m@,
        },
{
    let r = match file {
        ConfigFile::Loaded(raw) => {
            let mut raw = raw;
            expand_raw_config_fields(&mut raw, env)?;
            raw
        },
        ConfigFile::Missing => {
            let mut x = RawStage0Config {
                stage1_user_path: Some(get_default_stage1_user_path()),
                stage1_system_path: Some(get_default_stage1_system_path()),
            };
            expand_raw_config_fields(&mut x, env)?;
            x
        },
        ConfigFile::Unreadable(message) => {
            return Err(ConfigError { message });
        },
    };
    let c = Stage0Config::from(r);
    Ok(c)
}

/// Loads the configuration from what was found at the standard
/// configuration file's path ([`CONFIGFILE_PATH`]).
pub fn load_config(file: ConfigFile, env: &EnvMap) -> (r: Result<Stage0Config, ConfigError>)
    ensures
        match loaded_config(file, env@) {
            Some((u, s)) => r matches Ok(c) && c.stage1_user_path@ == u && c.stage1_system_path@ == s,
            None => r matches Err(e) && file matches ConfigFile::Unreadable(m) && e.message@ == m@,
        },
{
    load_configfile_path(file, env)
}

/// The configuration on a compute node, read back from the job's
/// environment (`SLURM_STAGE1_USER_BIN`, `SLURM_STAGE1_SYSTEM_BIN`); a
/// missing variable reads as the empty string.
pub fn remote_load_config(job_env: &EnvMap) -> (c: Stage0Config)
    ensures
        c.stage1_user_path@ == or_default(
            if job_env@.contains_key("SLURM_STAGE1_USER_BIN"@) { Some(job_env@["SLURM_STAGE1_USER_BIN"@]) } else { None },
            Seq::empty(),
        ),
        c.stage1_system_path@ == or_default(
            if job_env@.contains_key("SLURM_STAGE1_SYSTEM_BIN"@) { Some(job_env@["SLURM_STAGE1_SYSTEM_BIN"@]) } else { None },
            Seq::empty(),
        ),
{
    let user = match job_env.get("SLURM_STAGE1_USER_BIN") {
        Some(v) => v,
        None => String::new(),
    };
    let system = match job_env.get("SLURM_STAGE1_SYSTEM_BIN") {
        Some(v) => v,
        None => String::new(),
    };
    Stage0Config { stage1_user_path: user, stage1_system_path: system }
}

/// The environment variables that publish the configuration to the job:
/// `SLURM_STAGE1_USER_BIN` and `SLURM_STAGE1_SYSTEM_BIN`, in that order.
pub fn config_env_vars(config: &Stage0Config) -> (r: Vec<(String, String)>)
    ensures
        r@.len() == 2,
        r@[0].0@ == "SLURM_STAGE1_USER_BIN"@,
        r@[0].1@ == config.stage1_user_path@,
        r@[1].0@ == "SLURM_STAGE1_SYSTEM_BIN"@,
        r@[1].1@ == config.stage1_system_path@,
{
    let mut r: Vec<(String, String)> = Vec::new();
    r.push((owned("SLURM_STAGE1_USER_BIN"), config.stage1_user_path.clone()));
    r.push((owned("SLURM_STAGE1_SYSTEM_BIN"), config.stage1_system_path.clone()));
    r
}

/// The configuration at task start: both paths expanded again, now in the
/// task's environment.
pub fn task_init_adjust_config(config: &Stage0Config, env: &EnvMap) -> (r: Result<Stage0Config, ConfigError>)
    ensures
        r matches Ok(c) && c.stage1_user_path@ == expand_or_keep(config.stage1_user_path@, env@)
            && c.stage1_system_path@ == expand_or_keep(config.stage1_system_path@, env@),
{
    let new_config = Stage0Config {
        stage1_user_path: expand_vars_string(config.stage1_user_path.clone(), env)?,
        stage1_system_path: expand_vars_string(config.stage1_system_path.clone(), env)?,
    };
    Ok(new_config)
}

} // verus!
