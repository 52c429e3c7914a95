//! Which handler the helper runs for the hook the plugin names, and which
//! hooks the plugin is to call it for afterwards.
use vstd::prelude::*;
use crate::stage1::iodata::IOData;
use crate::text::{owned, str_eq, strs};

verus! {

/// The helper's handlers, by context and hook.
pub enum Handler {
    SrunInit,
    SrunInitPostOpt,
    SlurmstepdInit,
    SlurmstepdInitPostOpt,
    SlurmstepdTaskInit,
    SlurmstepdTaskExit,
    SlurmstepdExit,
}

/// The handler for a context and a hook, as the plugin names them; none
/// for other names.
pub open spec fn handler_for(context: Seq<char>, function: Seq<char>) -> Option<Handler> {
    if context == "local"@ {
        if function == "init"@ {
            Some(Handler::SrunInit)
        } else if function == "init_post_opt"@ {
            Some(Handler::SrunInitPostOpt)
        } else {
            None
        }
    } else if context == "remote"@ {
        if function == "init"@ {
            Some(Handler::SlurmstepdInit)
        } else if function == "init_post_opt"@ {
            Some(Handler::SlurmstepdInitPostOpt)
        } else if function == "task_init"@ {
            Some(Handler::SlurmstepdTaskInit)
        } else if function == "task_exit"@ {
            Some(Handler::SlurmstepdTaskExit)
        } else if function == "exit"@ {
            Some(Handler::SlurmstepdExit)
        } else {
            None
        }
    } else {
        None
    }
}

/// The context a handler serves: `local` for the submitting side,
/// `remote` for a compute node.
pub open spec fn handler_context(h: Handler) -> Seq<char> {
    match h {
        Handler::SrunInit | Handler::SrunInitPostOpt => "local"@,
        _ => "remote"@,
    }
}

/// The hook a handler serves.
pub open spec fn handler_function(h: Handler) -> Seq<char> {
    match h {
        Handler::SrunInit | Handler::SlurmstepdInit => "init"@,
        Handler::SrunInitPostOpt | Handler::SlurmstepdInitPostOpt => "init_post_opt"@,
        Handler::SlurmstepdTaskInit => "task_init"@,
        Handler::SlurmstepdTaskExit => "task_exit"@,
        Handler::SlurmstepdExit => "exit"@,
    }
}

/// Every handler is chosen for its own context and hook, and a chosen
/// handler always serves the context and hook it was chosen for: the two
/// local hooks and the five node hooks each reach their own handler, and
/// nothing else reaches any.
pub proof fn lemma_handlers_match_their_hooks(h: Handler, context: Seq<char>, function: Seq<char>)
    ensures
        handler_for(handler_context(h), handler_function(h)) == Some(h),
        handler_for(context, function) matches Some(g) ==> context == handler_context(g)
            && function == handler_function(g),
{
    reveal_strlit("local");
    reveal_strlit("remote");
    reveal_strlit("init");
    reveal_strlit("init_post_opt");
    reveal_strlit("task_init");
    reveal_strlit("task_exit");
    reveal_strlit("exit");
    assert("local"@.len() == 5 && "remote"@.len() == 6);
    assert("init"@.len() == 4 && "exit"@.len() == 4 && "init_post_opt"@.len() == 13);
    assert("task_init"@.len() == 9 && "task_exit"@.len() == 9);
    assert("init"@[0] != "exit"@[0]);
    assert("task_init"@[5] != "task_exit"@[5]);
}

/// [`handler_for`] the context and hook the data names.
pub fn dispatch_execution(data: &IOData) -> (r: Option<Handler>)
    ensures
        forall|h: Handler| data.exchange.slurm_context@ == handler_context(h)
            && data.exchange.slurm_function@ == handler_function(h) ==> r == Some(h),
        r matches Some(g) ==> data.exchange.slurm_context@ == handler_context(g)
            && data.exchange.slurm_function@ == handler_function(g),
        r == handler_for(data.exchange.slurm_context@, data.exchange.slurm_function@),
{
    proof {
        assert forall|h: Handler| data.exchange.slurm_context@ == handler_context(h)
            && data.exchange.slurm_function@ == handler_function(h) implies
            handler_for(data.exchange.slurm_context@, data.exchange.slurm_function@) == Some(h) by {
            lemma_handlers_match_their_hooks(h, data.exchange.slurm_context@, data.exchange.slurm_function@);
        }
        lemma_handlers_match_their_hooks(Handler::SrunInit, data.exchange.slurm_context@, data.exchange.slurm_function@);
    }
    let c = data.exchange.slurm_context.as_str();
    let f = data.exchange.slurm_function.as_str();
    if str_eq(c, "local") {
        if str_eq(f, "init") {
            Some(Handler::SrunInit)
        } else if str_eq(f, "init_post_opt") {
            Some(Handler::SrunInitPostOpt)
        } else {
            None
        }
    } else if str_eq(c, "remote") {
        if str_eq(f, "init") {
            Some(Handler::SlurmstepdInit)
        } else if str_eq(f, "init_post_opt") {
            Some(Handler::SlurmstepdInitPostOpt)
        } else if str_eq(f, "task_init") {
            Some(Handler::SlurmstepdTaskInit)
        } else if str_eq(f, "task_exit") {
            Some(Handler::SlurmstepdTaskExit)
        } else if str_eq(f, "exit") {
            Some(Handler::SlurmstepdExit)
        } else {
            None
        }
    } else {
        None
    }
}

/// The hooks a handler asks the plugin to call the helper for from now
/// on; the handlers of later hooks leave the list as it is.
pub open spec fn function_set(h: Handler) -> Option<Seq<Seq<char>>> {
    match h {
        Handler::SrunInit => Some(seq!["init"@, "init_post_opt"@]),
        Handler::SrunInitPostOpt => Some(seq!["init_post_opt"@]),
        Handler::SlurmstepdInit => Some(seq!["init"@, "init_post_opt"@, "task_init"@, "task_exit"@, "exit"@]),
        Handler::SlurmstepdInitPostOpt => Some(seq!["init_post_opt"@, "task_init"@, "task_exit"@, "exit"@]),
        _ => None,
    }
}

fn names(Ghost(a): Ghost<Seq<Seq<char>>>, items: Vec<&str>) -> (r: Vec<String>)
    requires
        items@.map_values(|s: &str| s@) == a,
    ensures
        strs(r@) == a,
{
    let mut v: Vec<String> = Vec::new();
    let mut i: usize = 0;
    while i < items.len()
        invariant
            i <= items@.len(),
            items@.map_values(|s: &str| s@) == a,
            strs(v@) == a.take(i as int),
        decreases items.len() - i,
    {
        assert(items@.map_values(|s: &str| s@)[i as int] == items@[i as int]@);
        let ghost before = v@;
        v.push(owned(items[i]));
        assert(strs(v@) =~= strs(before).push(a[i as int]));
        assert(a.take(i as int + 1) =~= a.take(i as int).push(a[i as int]));
        i = i + 1;
    }
    assert(a.take(items@.len() as int) =~= a);
    v
}

/// Sets in the data the hooks of [`function_set`] for the handler, when
/// it has any; nothing else changes.
pub fn set_function_set(data: &mut IOData, h: &Handler)
    ensures
        final(data).source == old(data).source,
        final(data).forward == old(data).forward,
        final(data).exchange.container == old(data).exchange.container,
        final(data).exchange.local2remote == old(data).exchange.local2remote,
        final(data).exchange.payload == old(data).exchange.payload,
        final(data).exchange.job_arg == old(data).exchange.job_arg,
        final(data).exchange.job_env == old(data).exchange.job_env,
        final(data).exchange.slurm_context == old(data).exchange.slurm_context,
        final(data).exchange.slurm_function == old(data).exchange.slurm_function,
        final(data).exchange.stage1_log_file == old(data).exchange.stage1_log_file,
        match function_set(*h) {
            Some(fs) => strs(final(data).exchange.stage1_function_set@) == fs,
            None => final(data).exchange.stage1_function_set == old(data).exchange.stage1_function_set,
        },
{
    let set: Option<Vec<String>> = match h {
        Handler::SrunInit => {
            let items = vec!["init", "init_post_opt"];
            let ghost fs = seq!["init"@, "init_post_opt"@];
            assert(items@.map_values(|s: &str| s@) =~= fs);
            Some(names(Ghost(fs), items))
        },
        Handler::SrunInitPostOpt => {
            let items = vec!["init_post_opt"];
            let ghost fs = seq!["init_post_opt"@];
            assert(items@.map_values(|s: &str| s@) =~= fs);
            Some(names(Ghost(fs), items))
        },
        Handler::SlurmstepdInit => {
            let items = vec!["init", "init_post_opt", "task_init", "task_exit", "exit"];
            let ghost fs = seq!["init"@, "init_post_opt"@, "task_init"@, "task_exit"@, "exit"@];
            assert(items@.map_values(|s: &str| s@) =~= fs);
            Some(names(Ghost(fs), items))
        },
        Handler::SlurmstepdInitPostOpt => {
            let items = vec!["init_post_opt", "task_init", "task_exit", "exit"];
            let ghost fs = seq!["init_post_opt"@, "task_init"@, "task_exit"@, "exit"@];
            assert(items@.map_values(|s: &str| s@) =~= fs);
            Some(names(Ghost(fs), items))
        },
        _ => None,
    };
    match set {
        Some(v) => {
            data.exchange.stage1_function_set = v;
        },
        None => {},
    }
}

} // verus!
