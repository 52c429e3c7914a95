//! Joining a task to its container: the `/proc` paths involved, reading
//! the container's environment, and how the task's environment is made
//! from the job's, the environment definition's and the container's.
use vstd::prelude::*;
use crate::envmap::EnvMap;
use crate::text::{cat, cat3, dec, owned, str_eq, string_of_chars, chars_of, u32_to_dec};

verus! {

broadcast use vstd::seq_lib::group_seq_properties;

// ---------------------------------------------------------------------------
// /proc paths
// ---------------------------------------------------------------------------

/// `/proc/<pid>/<leaf>`.
pub open spec fn proc_path(pid: u32, leaf: Seq<char>) -> Seq<char> {
    "/proc/"@ + dec(pid as nat) + "/"@ + leaf
}

/// `/proc/<pid>/<leaf>`.
pub fn proc_path_exec(pid: u32, leaf: &str) -> (r: String)
    ensures
        r@ == proc_path(pid, leaf@),
{
    let d = u32_to_dec(pid);
    cat3("/proc/", d.as_str(), "/").concat(leaf)
}

/// The paths of the user and mount namespaces of process `pid`, in the
/// order in which a task joins them.
pub fn namespace_paths(pid: u32) -> (r: (String, String))
    ensures
        r.0@ == proc_path(pid, "ns/user"@),
        r.1@ == proc_path(pid, "ns/mnt"@),
{
    (proc_path_exec(pid, "ns/user"), proc_path_exec(pid, "ns/mnt"))
}

/// The working directory a task moves to: the definition's, or the
/// container process's own (`/proc/<pid>/cwd`) when the definition gives
/// none.
pub fn container_workdir(pid: u32, workdir: &str) -> (r: String)
    ensures
        workdir@ == ""@ ==> r@ == proc_path(pid, "cwd"@),
        workdir@ != ""@ ==> r@ == workdir@,
{
    if str_eq(workdir, "") {
        proc_path_exec(pid, "cwd")
    } else {
        owned(workdir)
    }
}

// ---------------------------------------------------------------------------
// Waiting for the container's working directory
// ---------------------------------------------------------------------------

/// How many times a task checks the container's working directory.
pub const CWD_MAX_ATTEMPTS: u32 = 600;

/// What to do after a failed check of the container's working directory.
pub struct CwdRetry {
    /// The number of failed checks so far.
    pub attempts: u32,
    /// Whether to log this failure.
    pub log: bool,
    /// Whether to give up.
    pub give_up: bool,
}

/// After the `attempts`-th failed check: count it, log the first one and
/// every fiftieth, give up at the six hundredth.
pub fn cwd_retry(attempts: u32) -> (r: CwdRetry)
    requires
        attempts < CWD_MAX_ATTEMPTS,
    ensures
        r.attempts == attempts + 1,
        r.log == (r.attempts == 1 || r.attempts % 50 == 0),
        r.give_up == (r.attempts >= CWD_MAX_ATTEMPTS),
{
    let a = attempts + 1;
    CwdRetry { attempts: a, log: a == 1 || a % 50 == 0, give_up: a >= CWD_MAX_ATTEMPTS }
}

// ---------------------------------------------------------------------------
// The container's environment: NUL-separated `NAME=value` records
// ---------------------------------------------------------------------------

/// The position of the first `x` in `s`, or its length.
pub open spec fn first_index<A>(s: Seq<A>, x: A) -> int
    decreases s.len(),
{
    if s.len() == 0 {
        0
    } else if s[0] == x {
        0
    } else {
        1 + first_index(s.drop_first(), x)
    }
}

pub proof fn lemma_first_index<A>(s: Seq<A>, x: A)
    ensures
        0 <= first_index(s, x) <= s.len(),
        forall|j: int| 0 <= j < first_index(s, x) ==> s[j] != x,
        first_index(s, x) < s.len() ==> s[first_index(s, x)] == x,
        (first_index(s, x) == s.len()) == !s.contains(x),
    decreases s.len(),
{
    if s.len() > 0 && s[0] != x {
        lemma_first_index(s.drop_first(), x);
        assert forall|j: int| 0 <= j < first_index(s, x) implies s[j] != x by {
            if j > 0 {
                assert(s[j] == s.drop_first()[j - 1]);
            }
        }
        if s.contains(x) {
            let k = choose|k: int| 0 <= k < s.len() && s[k] == x;
            assert(s.drop_first()[k - 1] == x);
        }
        if s.drop_first().contains(x) {
            let k = choose|k: int| 0 <= k < s.drop_first().len() && s.drop_first()[k] == x;
            assert(s[k + 1] == x);
        }
    }
}

pub proof fn lemma_first_index_is<A>(s: Seq<A>, x: A, k: int)
    requires
        0 <= k <= s.len(),
        forall|j: int| 0 <= j < k ==> s[j] != x,
        k < s.len() ==> s[k] == x,
    ensures
        first_index(s, x) == k,
    decreases s.len(),
{
    if s.len() > 0 && k > 0 {
        assert forall|j: int| 0 <= j < k - 1 implies s.drop_first()[j] != x by {
            assert(s[j + 1] != x);
        }
        lemma_first_index_is(s.drop_first(), x, k - 1);
    }
}

/// The records of `b`, separated by NUL bytes, as reading it with
/// `BufRead::split(0)` gives them: a final record without a terminating
/// NUL counts, an empty text has none.
pub open spec fn nul_records(b: Seq<u8>) -> Seq<Seq<u8>>
    decreases b.len(),
{
    if b.len() == 0 {
        Seq::empty()
    } else {
        let i = first_index(b, 0u8);
        proof {
            lemma_first_index(b, 0u8);
        }
        if i < b.len() {
            seq![b.take(i)] + nul_records(b.skip(i + 1))
        } else {
            seq![b]
        }
    }
}

/// Splits `b` into its NUL-separated records.
pub fn split_nul_records(b: &Vec<u8>) -> (r: Vec<Vec<u8>>)
    ensures
        r@.map_values(|v: Vec<u8>| v@) == nul_records(b@),
{
    let mut r: Vec<Vec<u8>> = Vec::new();
    let mut pos: usize = 0;
    assert(b@.skip(0) =~= b@);
    while pos < b.len()
        invariant
            pos <= b@.len(),
            nul_records(b@) == r@.map_values(|v: Vec<u8>| v@) + nul_records(b@.skip(pos as int)),
        decreases b.len() - pos,
    {
        let ghost rest = b@.skip(pos as int);
        let mut rec: Vec<u8> = Vec::new();
        let mut j: usize = pos;
        while j < b.len() && b[j] != 0
            invariant
                pos <= j <= b@.len(),
                rec@ == b@.subrange(pos as int, j as int),
                forall|q: int| pos <= q < j ==> b@[q] != 0u8,
            decreases b.len() - j,
        {
            rec.push(b[j]);
            assert(b@.subrange(pos as int, j + 1) =~= b@.subrange(pos as int, j as int).push(b@[j as int]));
            j = j + 1;
        }
        proof {
            let k = j - pos;
            assert forall|q: int| 0 <= q < k implies rest[q] != 0u8 by {
                assert(rest[q] == b@[pos + q]);
            }
            if j < b.len() {
                assert(rest[k] == b@[j as int]);
            }
            lemma_first_index_is(rest, 0u8, k);
            assert(rest.take(k) =~= rec@);
            if j < b.len() {
                assert(rest.skip(k + 1) =~= b@.skip(j + 1));
            } else {
                assert(rest =~= rec@);
                assert(b@.skip(j as int) =~= Seq::<u8>::empty());
            }
        }
        let ghost before = r@.map_values(|v: Vec<u8>| v@);
        r.push(rec);
        assert(r@.map_values(|v: Vec<u8>| v@) =~= before.push(rec@));
        if j < b.len() {
            pos = j + 1;
            assert(nul_records(rest) == seq![rec@] + nul_records(b@.skip(pos as int)));
        } else {
            pos = j;
            assert(nul_records(rest) == seq![rec@]);
            assert(nul_records(b@.skip(pos as int)) =~= Seq::<Seq<u8>>::empty());
        }
        assert(before.push(rec@) + nul_records(b@.skip(pos as int)) =~= before + nul_records(rest));
    }
    assert(b@.skip(pos as int) =~= Seq::<u8>::empty());
    assert(r@.map_values(|v: Vec<u8>| v@) + Seq::<Seq<u8>>::empty() =~= r@.map_values(|v: Vec<u8>| v@));
    r
}

/// Decodes UTF-8 bytes into a string (`String::from_utf8`); `None` when the
/// bytes are not valid UTF-8.
#[verifier::external_body]
fn utf8_string(bytes: Vec<u8>) -> (r: Option<String>)
    ensures
        r is Some == vstd::utf8::valid_utf8(bytes@),
        r matches Some(s) ==> s@ == vstd::utf8::decode_utf8(bytes@),
{
    String::from_utf8(bytes).ok()
}

/// A record `NAME=value` split at its first `=`; `None` without one.
pub open spec fn split_at_eq(s: Seq<char>) -> Option<(Seq<char>, Seq<char>)> {
    let i = first_index(s, '=');
    if i < s.len() {
        Some((s.take(i), s.skip(i + 1)))
    } else {
        None
    }
}

/// `s.split_once('=')`.
pub fn split_once_eq(s: &str) -> (r: Option<(String, String)>)
    ensures
        match split_at_eq(s@) {
            Some((k, v)) => r matches Some(p) && p.0@ == k && p.1@ == v,
            None => r is None,
        },
{
    let cs = chars_of(s);
    let mut i: usize = 0;
    while i < cs.len() && cs[i] != '='
        invariant
            cs@ == s@,
            i <= cs.len(),
            forall|q: int| 0 <= q < i ==> cs@[q] != '=',
        decreases cs.len() - i,
    {
        i = i + 1;
    }
    proof {
        lemma_first_index_is(s@, '=', i as int);
    }
    if i == cs.len() {
        return None;
    }
    let mut key: Vec<char> = Vec::new();
    let mut q: usize = 0;
    while q < i
        invariant
            q <= i < cs.len(),
            key@ == cs@.take(q as int),
        decreases i - q,
    {
        key.push(cs[q]);
        assert(cs@.take(q + 1) =~= cs@.take(q as int).push(cs@[q as int]));
        q = q + 1;
    }
    let mut val: Vec<char> = Vec::new();
    let mut q2: usize = i + 1;
    while q2 < cs.len()
        invariant
            i + 1 <= q2 <= cs.len(),
            val@ == cs@.subrange(i + 1, q2 as int),
        decreases cs.len() - q2,
    {
        val.push(cs[q2]);
        assert(cs@.subrange(i + 1, q2 + 1) =~= cs@.subrange(i + 1, q2 as int).push(cs@[q2 as int]));
        q2 = q2 + 1;
    }
    assert(cs@.subrange(i + 1, cs@.len() as int) =~= s@.skip(i + 1));
    Some((string_of_chars(&key), string_of_chars(&val)))
}

/// Why the container's environment could not be read.
pub enum EnvironError {
    /// A record is not valid UTF-8.
    InvalidUtf8,
    /// A record has no `=`; the record is given.
    MissingSeparator(String),
}

impl EnvironError {
    /// The message of the error.
    pub fn message(&self) -> (r: String)
        ensures
            r@ == match *self {
                EnvironError::InvalidUtf8 => "environ is not valid UTF-8"@,
                EnvironError::MissingSeparator(s) => "couldn't parse environ value "@ + s@,
            },
    {
        match self {
            EnvironError::InvalidUtf8 => owned("environ is not valid UTF-8"),
            EnvironError::MissingSeparator(s) => cat("couldn't parse environ value ", s.as_str()),
        }
    }
}

/// The error of an environment record, as a spec value: `None` for
/// invalid UTF-8, the record for a missing `=`.
pub open spec fn environ_error_view(e: EnvironError) -> Option<Seq<char>> {
    match e {
        EnvironError::InvalidUtf8 => None,
        EnvironError::MissingSeparator(s) => Some(s@),
    }
}

/// One record: its name and value, or why it is unusable.
pub open spec fn parse_record(r: Seq<u8>) -> Result<(Seq<char>, Seq<char>), Option<Seq<char>>> {
    if !vstd::utf8::valid_utf8(r) {
        Err(None)
    } else {
        let s = vstd::utf8::decode_utf8(r);
        match split_at_eq(s) {
            Some(kv) => Ok(kv),
            None => Err(Some(s)),
        }
    }
}

/// The records in order, each one setting its name in `acc`; the first
/// unusable record stops it.
pub open spec fn parse_records(recs: Seq<Seq<u8>>, acc: Map<Seq<char>, Seq<char>>) -> Result<Map<Seq<char>, Seq<char>>, Option<Seq<char>>>
    decreases recs.len(),
{
    if recs.len() == 0 {
        Ok(acc)
    } else {
        match parse_record(recs[0]) {
            Ok((k, v)) => parse_records(recs.drop_first(), acc.insert(k, v)),
            Err(e) => Err(e),
        }
    }
}

/// The environment that the bytes of `/proc/<pid>/environ` hold.
pub open spec fn environ_spec(b: Seq<u8>) -> Result<Map<Seq<char>, Seq<char>>, Option<Seq<char>>> {
    parse_records(nul_records(b), Map::empty())
}

/// Reads the environment of a process from the contents of its
/// `/proc/<pid>/environ`: a later record for a name wins.
pub fn parse_environ(b: &Vec<u8>) -> (r: Result<EnvMap, EnvironError>)
    ensures
        match environ_spec(b@) {
            Ok(m) => r matches Ok(e) && e@ == m,
            Err(err) => r matches Err(e) && environ_error_view(e) == err,
        },
{
    let recs = split_nul_records(b);
    let ghost all = recs@.map_values(|v: Vec<u8>| v@);
    let mut env = EnvMap::new();
    let mut i: usize = 0;
    assert(all.skip(0) =~= all);
    while i < recs.len()
        invariant
            i <= recs@.len(),
            all == recs@.map_values(|v: Vec<u8>| v@),
            all == nul_records(b@),
            parse_records(all, Map::empty()) == parse_records(all.skip(i as int), env@),
        decreases recs.len() - i,
    {
        let ghost rest = all.skip(i as int);
        assert(rest[0] == recs@[i as int]@);
        assert(rest.drop_first() =~= all.skip(i + 1));
        let rec = recs[i].clone();
        assert(rec@ =~= rest[0]);
        assert(rest.len() > 0);
        match utf8_string(rec) {
            None => {
                assert(parse_record(rest[0]) == Err::<(Seq<char>, Seq<char>), Option<Seq<char>>>(None));
                assert(parse_records(rest, env@) == Err::<Map<Seq<char>, Seq<char>>, Option<Seq<char>>>(None));
                assert(environ_spec(b@) == parse_records(all, Map::empty()));
                return Err(EnvironError::InvalidUtf8);
            },
            Some(s) => {
                match split_once_eq(s.as_str()) {
                    None => {
                        assert(parse_record(rest[0]) == Err::<(Seq<char>, Seq<char>), Option<Seq<char>>>(Some(s@)));
                        assert(parse_records(rest, env@) == Err::<Map<Seq<char>, Seq<char>>, Option<Seq<char>>>(Some(s@)));
                        assert(environ_spec(b@) == parse_records(all, Map::empty()));
                        return Err(EnvironError::MissingSeparator(s));
                    },
                    Some((k, v)) => {
                        env.insert(k, v);
                    },
                }
            },
        }
        i = i + 1;
    }
    assert(all.skip(i as int) =~= Seq::<Seq<u8>>::empty());
    Ok(env)
}

// ---------------------------------------------------------------------------
// The task's environment
// ---------------------------------------------------------------------------

/// A change to the task's environment.
pub enum EnvAction {
    /// Remove the variable.
    Unset(String),
    /// Set the variable; without `overwrite`, an existing value stays.
    Assign { name: String, value: String, overwrite: bool },
}

/// The environment after one change.
pub open spec fn apply_action(e: Map<Seq<char>, Seq<char>>, a: EnvAction) -> Map<Seq<char>, Seq<char>> {
    match a {
        EnvAction::Unset(n) => e.remove(n@),
        EnvAction::Assign { name, value, overwrite } => if overwrite || !e.contains_key(name@) {
            e.insert(name@, value@)
        } else {
            e
        },
    }
}

/// The environment after the changes `s`, in order.
pub open spec fn apply_actions(e: Map<Seq<char>, Seq<char>>, s: Seq<EnvAction>) -> Map<Seq<char>, Seq<char>>
    decreases s.len(),
{
    if s.len() == 0 {
        e
    } else {
        apply_action(apply_actions(e, s.drop_last()), s.last())
    }
}

/// The locale variables that a container does not inherit from the job
/// unless its definition sets them.
pub open spec fn locale_var(k: Seq<char>) -> bool {
    k == "LANG"@ || k == "LANGUAGE"@ || k == "LC_ALL"@
}

/// The task's environment inside the container, from the job's environment
/// `job`, the definition's `edf` and the container's `cont`: a variable
/// that the definition sets to a value has that value; one that it sets to
/// the empty text keeps the job's value (or stays unset); otherwise the
/// container's value wins, then the job's, except that the locale
/// variables are not taken from the job.
pub open spec fn imported_env(
    job: Map<Seq<char>, Seq<char>>,
    edf: Map<Seq<char>, Seq<char>>,
    cont: Map<Seq<char>, Seq<char>>,
) -> Map<Seq<char>, Seq<char>> {
    Map::new(
        |k: Seq<char>|
            if edf.contains_key(k) {
                edf[k] != ""@ || job.contains_key(k)
            } else {
                cont.contains_key(k) || (job.contains_key(k) && !locale_var(k))
            },
        |k: Seq<char>|
            if edf.contains_key(k) && edf[k] != ""@ {
                edf[k]
            } else if !edf.contains_key(k) && cont.contains_key(k) {
                cont[k]
            } else {
                job[k]
            },
    )
}

spec fn after_locale(job: Map<Seq<char>, Seq<char>>, edf: Map<Seq<char>, Seq<char>>) -> Map<Seq<char>, Seq<char>> {
    job.remove_keys(Set::new(|k: Seq<char>| locale_var(k) && !edf.contains_key(k)))
}

spec fn after_edf(
    job: Map<Seq<char>, Seq<char>>,
    edf: Map<Seq<char>, Seq<char>>,
    ks: Seq<Seq<char>>,
) -> Map<Seq<char>, Seq<char>> {
    let base = after_locale(job, edf);
    Map::new(
        |k: Seq<char>| base.contains_key(k) || (ks.contains(k) && edf[k] != ""@),
        |k: Seq<char>| if ks.contains(k) && edf[k] != ""@ { edf[k] } else { base[k] },
    )
}

spec fn after_cont(
    job: Map<Seq<char>, Seq<char>>,
    edf: Map<Seq<char>, Seq<char>>,
    edf_keys: Seq<Seq<char>>,
    cont: Map<Seq<char>, Seq<char>>,
    cks: Seq<Seq<char>>,
) -> Map<Seq<char>, Seq<char>> {
    let base = after_edf(job, edf, edf_keys);
    Map::new(
        |k: Seq<char>| base.contains_key(k) || (cks.contains(k) && !edf.contains_key(k)),
        |k: Seq<char>| if cks.contains(k) && !edf.contains_key(k) { cont[k] } else { base[k] },
    )
}

proof fn lemma_apply_push(e: Map<Seq<char>, Seq<char>>, s: Seq<EnvAction>, a: EnvAction)
    ensures
        apply_actions(e, s.push(a)) == apply_action(apply_actions(e, s), a),
{
    assert(s.push(a).drop_last() =~= s);
}

/// A change as plain values: the variable's name, and for an assignment
/// its value and whether it overwrites (none for a removal).
pub open spec fn action_view(a: EnvAction) -> (Seq<char>, Option<(Seq<char>, bool)>) {
    match a {
        EnvAction::Unset(n) => (n@, None),
        EnvAction::Assign { name, value, overwrite } => (name@, Some((value@, overwrite))),
    }
}

/// Changes as plain values, in order.
pub open spec fn actions_view(s: Seq<EnvAction>) -> Seq<(Seq<char>, Option<(Seq<char>, bool)>)> {
    s.map_values(|a: EnvAction| action_view(a))
}

/// The removal of the locale variable `name`, unless the definition sets it.
pub open spec fn locale_unset(edf: Map<Seq<char>, Seq<char>>, name: Seq<char>) -> Seq<(Seq<char>, Option<(Seq<char>, bool)>)> {
    if edf.contains_key(name) {
        Seq::empty()
    } else {
        seq![(name, None)]
    }
}

/// The removals of `LANG`, `LANGUAGE` and `LC_ALL`, in that order, for
/// those the definition does not set.
pub open spec fn locale_unsets(edf: Map<Seq<char>, Seq<char>>) -> Seq<(Seq<char>, Option<(Seq<char>, bool)>)> {
    locale_unset(edf, "LANG"@) + locale_unset(edf, "LANGUAGE"@) + locale_unset(edf, "LC_ALL"@)
}

/// For each name of `keys` in order whose definition value is not empty,
/// its assignment with overwrite.
pub open spec fn edf_assigns(keys: Seq<Seq<char>>, edf: Map<Seq<char>, Seq<char>>) -> Seq<(Seq<char>, Option<(Seq<char>, bool)>)>
    decreases keys.len(),
{
    if keys.len() == 0 {
        Seq::empty()
    } else {
        let k = keys.last();
        edf_assigns(keys.drop_last(), edf) + if edf[k] != ""@ {
            seq![(k, Some((edf[k], true)))]
        } else {
            Seq::empty()
        }
    }
}

/// For each name of `keys` in order, the assignment of its container
/// value, overwriting only where the definition does not name it; names
/// the definition sets to the empty text are skipped.
pub open spec fn container_assigns(
    keys: Seq<Seq<char>>,
    cont: Map<Seq<char>, Seq<char>>,
    edf: Map<Seq<char>, Seq<char>>,
) -> Seq<(Seq<char>, Option<(Seq<char>, bool)>)>
    decreases keys.len(),
{
    if keys.len() == 0 {
        Seq::empty()
    } else {
        let k = keys.last();
        container_assigns(keys.drop_last(), cont, edf) + if edf.contains_key(k) && edf[k] == ""@ {
            Seq::empty()
        } else {
            seq![(k, Some((cont[k], !edf.contains_key(k))))]
        }
    }
}

/// The plan, change by change: the locale removals, then the definition's
/// assignments in its order, then the container's in its order.
pub open spec fn planned_actions(
    edf_keys: Seq<Seq<char>>,
    edf: Map<Seq<char>, Seq<char>>,
    cont_keys: Seq<Seq<char>>,
    cont: Map<Seq<char>, Seq<char>>,
) -> Seq<(Seq<char>, Option<(Seq<char>, bool)>)> {
    locale_unsets(edf) + edf_assigns(edf_keys, edf) + container_assigns(cont_keys, cont, edf)
}

fn unset_unless_defined(plan: &mut Vec<EnvAction>, edf_env: &EnvMap, name: &str)
    ensures
        actions_view(final(plan)@) == actions_view(old(plan)@) + locale_unset(edf_env@, name@),
        forall|e: Map<Seq<char>, Seq<char>>| #[trigger] apply_actions(e, final(plan)@) == if edf_env@.contains_key(name@) {
            apply_actions(e, old(plan)@)
        } else {
            apply_actions(e, old(plan)@).remove(name@)
        },
{
    if edf_env.contains_key(name) {
        assert(actions_view(plan@) =~= actions_view(plan@) + locale_unset(edf_env@, name@));
    } else {
        let ghost before = plan@;
        plan.push(EnvAction::Unset(owned(name)));
        assert(actions_view(plan@) =~= actions_view(before) + locale_unset(edf_env@, name@));
        assert forall|e: Map<Seq<char>, Seq<char>>| #[trigger] apply_actions(e, plan@) == apply_actions(e, before).remove(name@) by {
            assert(plan@ == before.push(plan@.last()));
            lemma_apply_push(e, before, plan@.last());
        }
    }
}

/// The removals of the locale variables the definition does not set (see
/// [`locale_unsets`]): the first changes of [`container_env_plan`], which
/// a task makes before it reads the container's environment.
pub fn locale_unset_plan(edf_env: &EnvMap) -> (plan: Vec<EnvAction>)
    ensures
        actions_view(plan@) == locale_unsets(edf_env@),
{
    let mut plan: Vec<EnvAction> = Vec::new();
    unset_unless_defined(&mut plan, edf_env, "LANG");
    unset_unless_defined(&mut plan, edf_env, "LANGUAGE");
    unset_unless_defined(&mut plan, edf_env, "LC_ALL");
    assert(actions_view(plan@) =~= locale_unsets(edf_env@)) by {
        assert(actions_view(Seq::<EnvAction>::empty()) =~= Seq::empty());
    }
    plan
}

/// The changes that turn the job's environment into the task's
/// environment inside the container (see [`imported_env`]), exactly as
/// [`planned_actions`] lists them: first the locale variables that the
/// definition does not set are removed, then the definition's non-empty
/// values are set with overwrite, in its order, then the container's
/// variables, in its order, overwriting only those the definition does not
/// name and skipping those it sets to the empty text.
pub fn container_env_plan(edf_env: &EnvMap, container_env: &EnvMap) -> (plan: Vec<EnvAction>)
    ensures
        actions_view(plan@) == planned_actions(edf_env.key_seq(), edf_env@, container_env.key_seq(), container_env@),
        forall|job: Map<Seq<char>, Seq<char>>|
            #[trigger] apply_actions(job, plan@) == imported_env(job, edf_env@, container_env@),
{
    let mut plan: Vec<EnvAction> = Vec::new();
    unset_unless_defined(&mut plan, edf_env, "LANG");
    unset_unless_defined(&mut plan, edf_env, "LANGUAGE");
    unset_unless_defined(&mut plan, edf_env, "LC_ALL");
    assert(actions_view(plan@) =~= locale_unsets(edf_env@) + edf_assigns(Seq::empty(), edf_env@)) by {
        assert(actions_view(Seq::<EnvAction>::empty()) =~= Seq::empty());
    }
    assert forall|job: Map<Seq<char>, Seq<char>>| #[trigger] apply_actions(job, plan@) == after_locale(job, edf_env@) by {
        assert(apply_actions(job, Seq::<EnvAction>::empty()) == job);
        assert(apply_actions(job, plan@) =~= after_locale(job, edf_env@));
    }
    let n = edf_env.len();
    let ghost edf_keys = edf_env.key_seq();
    let mut i: usize = 0;
    while i < n
        invariant
            n == edf_keys.len(),
            edf_keys == edf_env.key_seq(),
            i <= n,
            forall|k: Seq<char>| edf_env@.contains_key(k) <==> edf_keys.contains(k),
            forall|job: Map<Seq<char>, Seq<char>>|
                #[trigger] apply_actions(job, plan@) == after_edf(job, edf_env@, edf_keys.take(i as int)),
            actions_view(plan@) == locale_unsets(edf_env@) + edf_assigns(edf_keys.take(i as int), edf_env@),
        decreases n - i,
    {
        let k = edf_env.key_at(i);
        let v = edf_env.value_at(i);
        let ghost before = plan@;
        let ghost ks = edf_keys.take(i as int);
        let ghost ks2 = edf_keys.take(i + 1);
        assert(ks2 =~= ks.push(k@));
        assert(ks2.drop_last() =~= ks);
        assert(ks2.last() == k@);
        if str_eq(v.as_str(), "") {
            assert(edf_assigns(ks2, edf_env@) =~= edf_assigns(ks, edf_env@));
            assert forall|job: Map<Seq<char>, Seq<char>>|
                #[trigger] apply_actions(job, plan@) == after_edf(job, edf_env@, ks2) by {
                assert(after_edf(job, edf_env@, ks2) =~= after_edf(job, edf_env@, ks));
            }
        } else {
            plan.push(EnvAction::Assign { name: k, value: v, overwrite: true });
            assert(edf_assigns(ks2, edf_env@) == edf_assigns(ks, edf_env@) + seq![(k@, Some((v@, true)))]);
            assert(actions_view(plan@) =~= actions_view(before).push((k@, Some((v@, true)))));
            assert(actions_view(plan@) =~= locale_unsets(edf_env@) + edf_assigns(ks2, edf_env@));
            assert forall|job: Map<Seq<char>, Seq<char>>|
                #[trigger] apply_actions(job, plan@) == after_edf(job, edf_env@, ks2) by {
                assert(plan@ == before.push(plan@.last()));
                lemma_apply_push(job, before, plan@.last());
                assert(apply_actions(job, plan@) =~= after_edf(job, edf_env@, ks2));
            }
        }
        i = i + 1;
    }
    assert(edf_keys.take(n as int) =~= edf_keys);
    let ghost prefix = locale_unsets(edf_env@) + edf_assigns(edf_keys, edf_env@);
    let m = container_env.len();
    let ghost c_keys = container_env.key_seq();
    let mut j: usize = 0;
    assert(actions_view(plan@) =~= prefix + container_assigns(c_keys.take(0), container_env@, edf_env@));
    assert forall|job: Map<Seq<char>, Seq<char>>|
        #[trigger] apply_actions(job, plan@) == after_cont(job, edf_env@, edf_keys, container_env@, c_keys.take(0)) by {
        assert(after_cont(job, edf_env@, edf_keys, container_env@, c_keys.take(0)) =~= after_edf(job, edf_env@, edf_keys));
    }
    while j < m
        invariant
            n == edf_keys.len(),
            m == c_keys.len(),
            c_keys == container_env.key_seq(),
            j <= m,
            forall|k: Seq<char>| edf_env@.contains_key(k) <==> edf_keys.contains(k),
            forall|k: Seq<char>| container_env@.contains_key(k) <==> c_keys.contains(k),
            forall|job: Map<Seq<char>, Seq<char>>|
                #[trigger] apply_actions(job, plan@) == after_cont(job, edf_env@, edf_keys, container_env@, c_keys.take(j as int)),
            edf_keys == edf_env.key_seq(),
            prefix == locale_unsets(edf_env@) + edf_assigns(edf_keys, edf_env@),
            actions_view(plan@) == prefix + container_assigns(c_keys.take(j as int), container_env@, edf_env@),
        decreases m - j,
    {
        let k = container_env.key_at(j);
        let v = container_env.value_at(j);
        let ghost before = plan@;
        let ghost cks = c_keys.take(j as int);
        let ghost cks2 = c_keys.take(j + 1);
        assert(cks2 =~= cks.push(k@));
        assert(cks2.drop_last() =~= cks);
        assert(cks2.last() == k@);
        let ghost tail = container_assigns(cks, container_env@, edf_env@);
        match edf_env.get(k.as_str()) {
            Some(ev) => {
                if !str_eq(ev.as_str(), "") {
                    plan.push(EnvAction::Assign { name: k, value: v, overwrite: false });
                    assert(container_assigns(cks2, container_env@, edf_env@) == tail + seq![(k@, Some((v@, false)))]);
                    assert(actions_view(plan@) =~= actions_view(before).push((k@, Some((v@, false)))));
                    assert(actions_view(plan@) =~= prefix + container_assigns(cks2, container_env@, edf_env@));
                    assert forall|job: Map<Seq<char>, Seq<char>>|
                        #[trigger] apply_actions(job, plan@) == after_cont(job, edf_env@, edf_keys, container_env@, cks2) by {
                        assert(plan@ == before.push(plan@.last()));
                        lemma_apply_push(job, before, plan@.last());
                        let prev = after_cont(job, edf_env@, edf_keys, container_env@, cks);
                        assert(edf_keys.contains(k@));
                        assert(prev.contains_key(k@));
                        assert(after_cont(job, edf_env@, edf_keys, container_env@, cks2) =~= prev);
                    }
                } else {
                    assert(container_assigns(cks2, container_env@, edf_env@) =~= tail);
                    assert forall|job: Map<Seq<char>, Seq<char>>|
                        #[trigger] apply_actions(job, plan@) == after_cont(job, edf_env@, edf_keys, container_env@, cks2) by {
                        assert(after_cont(job, edf_env@, edf_keys, container_env@, cks2)
                            =~= after_cont(job, edf_env@, edf_keys, container_env@, cks));
                    }
                }
            },
            None => {
                plan.push(EnvAction::Assign { name: k, value: v, overwrite: true });
                assert(container_assigns(cks2, container_env@, edf_env@) == tail + seq![(k@, Some((v@, true)))]);
                assert(actions_view(plan@) =~= actions_view(before).push((k@, Some((v@, true)))));
                assert(actions_view(plan@) =~= prefix + container_assigns(cks2, container_env@, edf_env@));
                assert forall|job: Map<Seq<char>, Seq<char>>|
                    #[trigger] apply_actions(job, plan@) == after_cont(job, edf_env@, edf_keys, container_env@, cks2) by {
                    assert(plan@ == before.push(plan@.last()));
                    lemma_apply_push(job, before, plan@.last());
                    assert(apply_actions(job, plan@) =~= after_cont(job, edf_env@, edf_keys, container_env@, cks2));
                }
            },
        }
        j = j + 1;
    }
    assert(c_keys.take(m as int) =~= c_keys);
    assert forall|job: Map<Seq<char>, Seq<char>>|
        #[trigger] apply_actions(job, plan@) == imported_env(job, edf_env@, container_env@) by {
        assert(apply_actions(job, plan@) =~= imported_env(job, edf_env@, container_env@));
    }
    plan
}

/// A variable that the environment definition sets to a non-empty value
/// has that value in the task, whatever the job's and the container's
/// environments hold.
pub proof fn lemma_definition_wins(
    job: Map<Seq<char>, Seq<char>>,
    edf: Map<Seq<char>, Seq<char>>,
    cont: Map<Seq<char>, Seq<char>>,
    k: Seq<char>,
)
    requires
        edf.contains_key(k),
        edf[k] != ""@,
    ensures
        imported_env(job, edf, cont).contains_key(k),
        imported_env(job, edf, cont)[k] == edf[k],
{
}

/// A variable that the environment definition sets to the empty text is
/// never taken from the container: the task has the job's value, or none.
pub proof fn lemma_empty_definition_keeps_job_value(
    job: Map<Seq<char>, Seq<char>>,
    edf: Map<Seq<char>, Seq<char>>,
    cont: Map<Seq<char>, Seq<char>>,
    k: Seq<char>,
)
    requires
        edf.contains_key(k),
        edf[k] == ""@,
    ensures
        imported_env(job, edf, cont).contains_key(k) == job.contains_key(k),
        job.contains_key(k) ==> imported_env(job, edf, cont)[k] == job[k],
{
}

} // verus!
