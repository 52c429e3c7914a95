//! The decisions the plugin takes at each hook.
use vstd::prelude::*;
use crate::stage0::log::SpankContext;
use crate::text::owned;

verus! {

/// The plugin hooks that involve the helper command.
pub enum Hook {
    InitPostOpt,
    UserInit,
    TaskInit,
    TaskInitPrivileged,
    TaskExit,
    Exit,
}

/// The name under which the helper knows a hook.
pub open spec fn hook_name(h: Hook) -> Seq<char> {
    match h {
        Hook::InitPostOpt => "init_post_opt"@,
        Hook::UserInit => "user_init"@,
        Hook::TaskInit => "task_init"@,
        Hook::TaskInitPrivileged => "task_init_privileged"@,
        Hook::TaskExit => "task_exit"@,
        Hook::Exit => "exit"@,
    }
}

/// [`hook_name`], computed.
pub fn hook_function(h: &Hook) -> (r: String)
    ensures
        r@ == hook_name(*h),
{
    match h {
        Hook::InitPostOpt => owned("init_post_opt"),
        Hook::UserInit => owned("user_init"),
        Hook::TaskInit => owned("task_init"),
        Hook::TaskInitPrivileged => owned("task_init_privileged"),
        Hook::TaskExit => owned("task_exit"),
        Hook::Exit => owned("exit"),
    }
}

/// The context name a hook passes to the helper, or none when the hook
/// does nothing in `ctx`: the first hook acts on the submitting side and on
/// nodes, the final one also in the daemon, the privileged task hook only
/// on nodes, and the other hooks always run on nodes.
pub open spec fn hook_context_spec(h: Hook, ctx: SpankContext) -> Option<Seq<char>> {
    match h {
        Hook::InitPostOpt => match ctx {
            SpankContext::Local => Some("local"@),
            SpankContext::Allocator => Some("allocator"@),
            SpankContext::Remote => Some("remote"@),
            _ => None,
        },
        Hook::Exit => match ctx {
            SpankContext::Slurmd => Some("slurmd"@),
            SpankContext::Local => Some("local"@),
            SpankContext::Allocator => Some("allocator"@),
            SpankContext::Remote => Some("remote"@),
            _ => None,
        },
        Hook::TaskInitPrivileged => match ctx {
            SpankContext::Remote => Some("remote"@),
            _ => None,
        },
        _ => Some("remote"@),
    }
}

/// The name of a Slurm context as the helper knows it; the job-script
/// context has none.
pub open spec fn context_name(ctx: SpankContext) -> Option<Seq<char>> {
    match ctx {
        SpankContext::Slurmd => Some("slurmd"@),
        SpankContext::Local => Some("local"@),
        SpankContext::Allocator => Some("allocator"@),
        SpankContext::Remote => Some("remote"@),
        SpankContext::JobScript => None,
    }
}

/// Where each hook runs the helper. The exit hook runs it in every named
/// context, under that context's own name (on compute nodes as `remote`,
/// in the daemon as `slurmd`); the first hook in the submitting contexts
/// and on nodes, under their own names, but never in the daemon; the
/// privileged task hook only on nodes; the user, task-start and task-exit
/// hooks always as `remote`.
pub proof fn lemma_hook_contexts(h: Hook, ctx: SpankContext)
    ensures
        h is Exit ==> hook_context_spec(h, ctx) == context_name(ctx),
        h is Exit && ctx is Remote ==> hook_context_spec(h, ctx) == Some("remote"@),
        h is InitPostOpt ==> hook_context_spec(h, ctx) == if ctx is Slurmd { None } else { context_name(ctx) },
        h is TaskInitPrivileged ==> hook_context_spec(h, ctx) == if ctx is Remote { context_name(ctx) } else { None },
        (h is UserInit || h is TaskInit || h is TaskExit) ==> hook_context_spec(h, ctx) == Some("remote"@),
{
}

/// [`hook_context_spec`], computed.
pub fn hook_context(h: &Hook, ctx: &SpankContext) -> (r: Option<String>)
    ensures
        *h is Exit ==> match context_name(*ctx) {
            Some(n) => r matches Some(s) && s@ == n,
            None => r is None,
        },
        match hook_context_spec(*h, *ctx) {
            Some(c) => r matches Some(s) && s@ == c,
            None => r is None,
        },
{
    match h {
        Hook::InitPostOpt => match ctx {
            SpankContext::Local => Some(owned("local")),
            SpankContext::Allocator => Some(owned("allocator")),
            SpankContext::Remote => Some(owned("remote")),
            _ => None,
        },
        Hook::Exit => match ctx {
            SpankContext::Slurmd => Some(owned("slurmd")),
            SpankContext::Local => Some(owned("local")),
            SpankContext::Allocator => Some(owned("allocator")),
            SpankContext::Remote => Some(owned("remote")),
            _ => None,
        },
        Hook::TaskInitPrivileged => match ctx {
            SpankContext::Remote => Some(owned("remote")),
            _ => None,
        },
        _ => Some(owned("remote")),
    }
}

/// Whether a hook goes on: the first hook always does (it decides whether
/// the plugin is enabled); the others only while the plugin is enabled.
pub fn hook_proceeds(h: &Hook, enabled: bool) -> (r: bool)
    ensures
        r == (*h is InitPostOpt || enabled),
{
    match h {
        Hook::InitPostOpt => true,
        _ => enabled,
    }
}

/// Whether the plugin is enabled after reading its options: only with an
/// environment definition (`--payload`).
pub fn enabled_by_payload(payload: &Option<String>) -> (r: bool)
    ensures
        r == payload is Some,
{
    payload.is_some()
}

} // verus!
