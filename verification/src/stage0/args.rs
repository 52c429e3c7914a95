//! The plugin's command-line options.
use vstd::prelude::*;
use crate::stage0::iodata::Stage0Args;
use crate::text::{cat, cat3, owned, str_eq};

verus! {

/// An option the plugin offers.
pub struct SpankArg {
    pub name: String,
    pub value: String,
    pub usage: String,
    pub has_arg: bool,
}

/// An option as it is registered: its value's name when it takes one, and
/// its usage text prefixed with the plugin's name.
pub struct OptionSpec {
    pub name: String,
    pub value: Option<String>,
    pub usage: String,
}

/// `v` with `a` added at the end.
pub fn add_arg(v: Vec<SpankArg>, a: SpankArg) -> (r: Vec<SpankArg>)
    ensures
        r@ == v@.push(a),
{
    let mut v = v;
    v.push(a);
    v
}

/// The plugin's options: `--payload PATH`.
pub fn plugin_args() -> (r: Vec<SpankArg>)
    ensures
        r@.len() == 1,
        r@[0].name@ == "payload"@,
        r@[0].value@ == "PATH"@,
        r@[0].usage@ == "the path to the Environment Definition File to use."@,
        r@[0].has_arg,
{
    let opts: Vec<SpankArg> = Vec::new();
    add_arg(
        opts,
        SpankArg {
            name: owned("payload"),
            value: owned("PATH"),
            usage: owned("the path to the Environment Definition File to use."),
            has_arg: true,
        },
    )
}

/// The registration of each option: usage `[<plugin>] <usage>`.
pub fn option_specs(plug_name: &str, opts: &Vec<SpankArg>) -> (r: Vec<OptionSpec>)
    ensures
        r@.len() == opts@.len(),
        forall|i: int| 0 <= i < opts@.len() ==> {
            &&& (#[trigger] r@[i]).name@ == opts@[i].name@
            &&& r@[i].usage@ == "["@ + plug_name@ + "] "@ + opts@[i].usage@
            &&& if opts@[i].has_arg { r@[i].value matches Some(v) && v@ == opts@[i].value@ } else { r@[i].value is None }
        },
{
    let mut r: Vec<OptionSpec> = Vec::new();
    for i in 0..opts.len()
        invariant
            r@.len() == i,
            forall|j: int| 0 <= j < i ==> {
                &&& (#[trigger] r@[j]).name@ == opts@[j].name@
                &&& r@[j].usage@ == "["@ + plug_name@ + "] "@ + opts@[j].usage@
                &&& if opts@[j].has_arg { r@[j].value matches Some(v) && v@ == opts@[j].value@ } else { r@[j].value is None }
            },
    {
        let o = &opts[i];
        let usage = cat3("[", plug_name, "] ").concat(o.usage.as_str());
        let value = if o.has_arg { Some(o.value.clone()) } else { None };
        r.push(OptionSpec { name: o.name.clone(), value, usage });
    }
    r
}

/// Records the `--payload` option's value; an empty value is an error.
pub fn set_arg_payload(args: &mut Stage0Args, value: String) -> (r: Result<(), String>)
    ensures
        value@ == ""@ ==> (r matches Err(m) && m@ == "--payload: argument required"@ && *final(args) == *old(args)),
        value@ != ""@ ==> (r is Ok && final(args).payload == Some(value)),
{
    if str_eq(value.as_str(), "") {
        return Err(owned("--payload: argument required"));
    }
    args.payload = Some(value);
    Ok(())
}

/// Records the options given on the command line: the value of
/// `--payload`, when it was given.
pub fn load_plugin_args(args: &mut Stage0Args, payload: Option<String>) -> (r: Result<(), String>)
    ensures
        match payload {
            None => r is Ok && *final(args) == *old(args),
            Some(v) => if v@ == ""@ {
                r matches Err(m) && m@ == "--payload: argument required"@ && *final(args) == *old(args)
            } else {
                r is Ok && final(args).payload == Some(v)
            },
        },
{
    match payload {
        Some(v) => set_arg_payload(args, v),
        None => Ok(()),
    }
}

} // verus!
