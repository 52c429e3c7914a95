//! Shell-style variable expansion (`$NAME`, `${NAME}`) against an
//! explicit environment.
use vstd::prelude::*;
use crate::envmap::EnvMap;

verus! {

/// The result of expanding the variables of `input` with the values of
/// `env`, or `None` when the expansion fails: `input` names a variable
/// that `env` lacks, without a default.
pub uninterp spec fn spec_env_expand(input: Seq<char>, env: Map<Seq<char>, Seq<char>>) -> Option<Seq<char>>;

/// The view of an optional string.
pub open spec fn opt_view(o: Option<String>) -> Option<Seq<char>> {
    match o {
        Some(s) => Some(s@),
        None => None,
    }
}

/// Expands `input` with `shellexpand::env_with_context`, looking names up
/// in `env`; a name that `env` lacks makes the call fail (`None`).
///
/// The contract names the result and states one fact of the crate's
/// source: a text without `$` comes back unchanged. It does not spell out
/// the expansion syntax (`$NAME`, `${NAME}`, `${NAME:-default}`, `$$`).
#[verifier::external_body]
pub fn env_expand(input: &str, env: &EnvMap) -> (r: Option<String>)
    ensures
        opt_view(r) == spec_env_expand(input@, env@),
        !input@.contains('$') ==> opt_view(r) == Some(input@),
{
    shellexpand::env_with_context(input, |name: &str| env.lookup_for_expansion(name))
        .ok()
        .map(|c| c.into_owned())
}

} // verus!
