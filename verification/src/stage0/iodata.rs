//! The data the plugin exchanges with the helper command at each hook.
use vstd::prelude::*;
use crate::envmap::EnvMap;
use crate::stage0::config::Stage0Config;
use crate::stage0::containers::{split_at_eq, split_once_eq};
use crate::text::{strs, cat, cat3, dec, owned, str_eq, u32_to_dec};

verus! {

#[verifier::external_type_specification]
#[verifier::external_body]
pub struct ExJsonValue(serde_json::Value);

/// The plugin's command-line options.
pub struct Stage0Args {
    /// The environment definition to use (`--payload`).
    pub payload: Option<String>,
}

/// What the helper reports of the container a task joins.
pub struct DataContainer {
    pub env: EnvMap,
    pub pid: u32,
    pub workdir: String,
}

/// Where the data comes from.
pub struct DataSource {
    pub version: String,
    pub args: Stage0Args,
    pub config: Stage0Config,
}

/// The data that changes from hook to hook.
pub struct DataExchange {
    pub container: Option<DataContainer>,
    pub local2remote: String,
    pub payload: Option<String>,
    pub job_arg: Vec<String>,
    pub job_env: EnvMap,
    pub slurm_context: String,
    pub slurm_function: String,
    pub stage1_log_file: String,
    pub stage1_function_set: Vec<String>,
}

/// The whole record passed to the helper and read back from it.
pub struct IOData {
    pub source: DataSource,
    pub exchange: DataExchange,
    /// Data the helper keeps for itself; the plugin only carries it.
    pub forward: Option<serde_json::Value>,
}

/// Why the exchanged data cannot be brought up to date.
pub enum IODataError {
    /// A hook other than the first one found no data.
    NotInitialized,
    /// The hook runs in another context than the data was made in; the
    /// data's context, then the hook's.
    ContextJump(String, String),
}

impl IODataError {
    /// The message of the error.
    pub fn message(&self) -> (r: String)
        ensures
            r@ == iodata_error_message(*self),
    {
        match self {
            IODataError::NotInitialized => owned("ERROR: IOData is not initialized!"),
            IODataError::ContextJump(from, to) => {
                let mut r = cat3("ERROR: Jump of context from ", from.as_str(), " to ");
                r.append(to.as_str());
                r
            },
        }
    }
}

/// The message of an [`IODataError`].
pub open spec fn iodata_error_message(e: IODataError) -> Seq<char> {
    match e {
        IODataError::NotInitialized => "ERROR: IOData is not initialized!"@,
        IODataError::ContextJump(from, to) => "ERROR: Jump of context from "@ + from@ + " to "@ + to@,
    }
}

/// The data of the first hook, before the helper has seen it.
pub fn new_iodata(
    version: String,
    args: Stage0Args,
    config: Stage0Config,
    log_file: String,
    payload: Option<String>,
    job_arg: Vec<String>,
    job_env: EnvMap,
    context: String,
    function: String,
) -> (r: IOData)
    ensures
        r.source.version == version,
        r.source.args == args,
        r.source.config == config,
        r.exchange.container is None,
        r.exchange.local2remote@ == ""@,
        r.exchange.payload == payload,
        r.exchange.job_arg == job_arg,
        r.exchange.job_env@ == job_env@,
        r.exchange.slurm_context == context,
        r.exchange.slurm_function == function,
        r.exchange.stage1_log_file == log_file,
        r.exchange.stage1_function_set@.len() == 0,
        r.forward is None,
{
    IOData {
        source: DataSource { version, args, config },
        exchange: DataExchange {
            container: None,
            local2remote: owned(""),
            payload,
            job_arg,
            job_env,
            slurm_context: context,
            slurm_function: function,
            stage1_log_file: log_file,
            stage1_function_set: Vec::new(),
        },
        forward: None,
    }
}

/// Whether a hook must build the data afresh: only the first hook does,
/// when there is none yet.
pub open spec fn needs_new_iodata(current: Option<IOData>, function: Seq<char>) -> bool {
    current is None && function == "init_post_opt"@
}

/// Whether a hook reads the plugin's options again: the first hook on the
/// submitting side.
pub open spec fn needs_fresh_args(context: Seq<char>, function: Seq<char>) -> bool {
    context == "local"@ && function == "init_post_opt"@
}

/// [`needs_new_iodata`], computed.
pub fn iodata_init_needed(current: &Option<IOData>, function: &str) -> (r: bool)
    ensures
        r == needs_new_iodata(*current, function@),
{
    current.is_none() && str_eq(function, "init_post_opt")
}

/// [`needs_fresh_args`], computed.
pub fn fresh_args_needed(context: &str, function: &str) -> (r: bool)
    ensures
        r == needs_fresh_args(context@, function@),
{
    str_eq(context, "local") && str_eq(function, "init_post_opt")
}

/// The data of a hook: the data so far (or `fresh`, for the first hook),
/// now naming the hook, the payload and the job's current environment, and
/// for the first hook on the submitting side the options read again. A hook
/// without data, other than the first, and a hook in another context than
/// the data's, are errors that leave `current` as it was.
pub fn update_iodata(
    current: &mut Option<IOData>,
    fresh: Option<IOData>,
    context: &str,
    function: &str,
    payload: Option<String>,
    job_env: EnvMap,
    args: Option<Stage0Args>,
) -> (r: Result<(), IODataError>)
    requires
        needs_new_iodata(*old(current), function@) ==> fresh is Some,
        needs_fresh_args(context@, function@) ==> args is Some,
    ensures
        ({
            let base = if (*old(current)) is Some { (*old(current))->0 } else { fresh->0 };
            if (*old(current)) is None && function@ != "init_post_opt"@ {
                r matches Err(e) && e is NotInitialized && *final(current) == *old(current)
            } else if context@ != base.exchange.slurm_context@ {
                &&& r matches Err(e) && e matches IODataError::ContextJump(from, to)
                    && from@ == base.exchange.slurm_context@ && to@ == context@
                &&& (*old(current)) is Some ==> *final(current) == *old(current)
                &&& (*old(current)) is None ==> (*final(current) matches Some(d) && d == base)
            } else {
                &&& r is Ok
                &&& *final(current) matches Some(d)
                &&& d.source.version == base.source.version
                &&& d.source.config == base.source.config
                &&& d.source.args == if needs_fresh_args(context@, function@) { args->0 } else { base.source.args }
                &&& d.exchange.container == base.exchange.container
                &&& d.exchange.local2remote == base.exchange.local2remote
                &&& d.exchange.job_arg == base.exchange.job_arg
                &&& d.exchange.slurm_context == base.exchange.slurm_context
                &&& d.exchange.stage1_log_file == base.exchange.stage1_log_file
                &&& d.exchange.stage1_function_set == base.exchange.stage1_function_set
                &&& d.forward == base.forward
                &&& d.exchange.slurm_function@ == function@
                &&& d.exchange.payload == payload
                &&& d.exchange.job_env@ == job_env@
            }
        }),
{
    if current.is_none() {
        if str_eq(function, "init_post_opt") {
            *current = fresh;
        } else {
            return Err(IODataError::NotInitialized);
        }
    }
    let mut data = current.take().unwrap();
    if !str_eq(context, data.exchange.slurm_context.as_str()) {
        let from = data.exchange.slurm_context.clone();
        *current = Some(data);
        return Err(IODataError::ContextJump(from, owned(context)));
    }
    data.exchange.slurm_function = owned(function);
    data.exchange.payload = payload;
    data.exchange.job_env = job_env;
    if fresh_args_needed(context, function) {
        data.source.args = args.unwrap();
    }
    *current = Some(data);
    Ok(())
}

/// Whether the helper takes part in the hook `function`: it said so when
/// it last answered.
pub fn runs_hook(data: &IOData, function: &str) -> (r: bool)
    ensures
        r == strs(data.exchange.stage1_function_set@).contains(function@),
{
    let set = &data.exchange.stage1_function_set;
    let mut i: usize = 0;
    while i < set.len()
        invariant
            i <= set@.len(),
            set@ == data.exchange.stage1_function_set@,
            forall|j: int| 0 <= j < i ==> set@[j]@ != function@,
        decreases set.len() - i,
    {
        if str_eq(set[i].as_str(), function) {
            assert(strs(set@)[i as int] == function@);
            assert(strs(set@).contains(function@));
            return true;
        }
        i = i + 1;
    }
    assert(!strs(set@).contains(function@)) by {
        if strs(set@).contains(function@) {
            let j = choose|j: int| 0 <= j < set@.len() && #[trigger] strs(set@)[j] == function@;
            assert(set@[j]@ != function@);
        }
    }
    false
}

/// What to do with the variable that carries data to the nodes
/// ([`crate::stage0::LOCAL2REMOTE_VARNAME`]).
pub enum Local2RemoteAction {
    /// Leave it.
    Keep,
    /// Remove it.
    Remove,
    /// Set it to the text.
    Publish(String),
}

/// On the submitting side (contexts `local` and `allocator`), publishes
/// what the helper left for the nodes, or removes the variable when it
/// left nothing; elsewhere, or without data, leaves it.
pub fn local2remote_action(data: &Option<IOData>) -> (r: Local2RemoteAction)
    ensures
        match data {
            None => r is Keep,
            Some(d) => if d.exchange.slurm_context@ != "local"@ && d.exchange.slurm_context@ != "allocator"@ {
                r is Keep
            } else if d.exchange.local2remote@ == ""@ {
                r is Remove
            } else {
                r matches Local2RemoteAction::Publish(s) && s@ == d.exchange.local2remote@
            },
        },
{
    match data {
        None => Local2RemoteAction::Keep,
        Some(d) => {
            let context = d.exchange.slurm_context.as_str();
            if !str_eq(context, "local") && !str_eq(context, "allocator") {
                return Local2RemoteAction::Keep;
            }
            if str_eq(d.exchange.local2remote.as_str(), "") {
                return Local2RemoteAction::Remove;
            }
            Local2RemoteAction::Publish(d.exchange.local2remote.clone())
        },
    }
}

/// The environment that `NAME=value` entries give, a later entry for a
/// name winning.
pub open spec fn env_of_entries(entries: Seq<Seq<char>>) -> Map<Seq<char>, Seq<char>>
    decreases entries.len(),
{
    if entries.len() == 0 {
        Map::empty()
    } else {
        match split_at_eq(entries.last()) {
            Some((k, v)) => env_of_entries(entries.drop_last()).insert(k, v),
            None => env_of_entries(entries.drop_last()),
        }
    }
}

/// The job's environment from its `NAME=value` entries, with
/// `SLURM_NODEID` added from the node id when the entries lack it.
pub open spec fn job_env_spec(entries: Seq<Seq<char>>, nodeid: Option<u32>) -> Map<Seq<char>, Seq<char>> {
    let m = env_of_entries(entries);
    if !m.contains_key("SLURM_NODEID"@) && nodeid is Some {
        m.insert("SLURM_NODEID"@, dec(nodeid->0 as nat))
    } else {
        m
    }
}

/// The job's environment (`get_job_env`): every entry must hold a `=`.
pub fn get_job_env(entries: &Vec<String>, nodeid: Option<u32>) -> (r: EnvMap)
    requires
        forall|i: int| 0 <= i < entries@.len() ==> (#[trigger] entries@[i])@.contains('='),
    ensures
        r@ == job_env_spec(entries@.map_values(|s: String| s@), nodeid),
{
    let ghost all = entries@.map_values(|s: String| s@);
    let mut h = EnvMap::new();
    let mut i: usize = 0;
    while i < entries.len()
        invariant
            i <= entries@.len(),
            all == entries@.map_values(|s: String| s@),
            forall|q: int| 0 <= q < entries@.len() ==> (#[trigger] entries@[q])@.contains('='),
            h@ == env_of_entries(all.take(i as int)),
        decreases entries.len() - i,
    {
        let e = &entries[i];
        assert(all.take(i + 1).drop_last() =~= all.take(i as int));
        assert(all.take(i + 1).last() == e@);
        match split_once_eq(e.as_str()) {
            Some((k, v)) => {
                h.insert(k, v);
            },
            None => {
                assert(e@.contains('=')) by {
                    assert(entries@[i as int]@.contains('='));
                }
                proof {
                    crate::stage0::containers::lemma_first_index(e@, '=');
                }
            },
        }
        i = i + 1;
    }
    assert(all.take(entries@.len() as int) =~= all);
    if !h.contains_key("SLURM_NODEID") {
        match nodeid {
            Some(n) => {
                h.insert(owned("SLURM_NODEID"), u32_to_dec(n));
            },
            None => {},
        }
    }
    h
}

/// The container a task joins, as the helper reported it: its process id,
/// the definition's environment and working directory.
pub fn container_join_data(data: &IOData) -> (r: Result<(u32, EnvMap, String), String>)
    ensures
        match data.exchange.container {
            Some(c) => r matches Ok(t) && t.0 == c.pid && t.1@ == c.env@ && t.2 == c.workdir,
            None => r matches Err(m) && m@ == "stage1 returned no container data"@,
        },
{
    match &data.exchange.container {
        Some(c) => Ok((c.pid, c.env.duplicate(), c.workdir.clone())),
        None => Err(owned("stage1 returned no container data")),
    }
}

} // verus!
