//! The job's environment as the helper gets it: from the data the plugin
//! passes, or from the copy the plugin leaves in the cache.
use vstd::prelude::*;
use crate::envmap::EnvMap;
use crate::stage1::iodata::IOData;
use crate::stage1::json::JsonValue;
use crate::text::cat;

verus! {

/// The cache file of the job's environment in the cache directory.
pub fn jobenv_cache_file(cache_dir: &str) -> (r: String)
    ensures
        r@ == cache_dir@ + "/jobenv.json"@,
{
    cat(cache_dir, "/jobenv.json")
}

/// The environment a JSON object of texts describes, a later entry of a
/// name replacing an earlier one; none when an entry is not a text.
pub open spec fn env_of_object(entries: Seq<(String, JsonValue)>) -> Option<Map<Seq<char>, Seq<char>>>
    decreases entries.len(),
{
    if entries.len() == 0 {
        Some(Map::empty())
    } else {
        match (env_of_object(entries.drop_last()), entries.last().1) {
            (Some(m), JsonValue::Str(v)) => Some(m.insert(entries.last().0@, v@)),
            _ => None,
        }
    }
}

fn env_from_entries(entries: &Vec<(String, JsonValue)>) -> (r: Option<EnvMap>)
    ensures
        match env_of_object(entries@) {
            Some(m) => r matches Some(e) && e@ == m,
            None => r is None,
        },
{
    let mut m = EnvMap::new();
    let mut i: usize = 0;
    while i < entries.len()
        invariant
            i <= entries@.len(),
            env_of_object(entries@.take(i as int)) == Some(m@),
        decreases entries.len() - i,
    {
        assert(entries@.take(i as int + 1).drop_last() =~= entries@.take(i as int));
        assert(entries@.take(i as int + 1).last() == entries@[i as int]);
        match &entries[i].1 {
            JsonValue::Str(v) => {
                m.insert(entries[i].0.clone(), v.clone());
            },
            _ => {
                proof {
                    assert(env_of_object(entries@.take(i as int + 1)) is None);
                    lemma_env_of_object_none(entries@, i as int + 1);
                }
                return None;
            },
        }
        i = i + 1;
    }
    assert(entries@.take(entries@.len() as int) =~= entries@);
    Some(m)
}

/// The job's environment from the cache file's content: the object of
/// texts it holds, or an empty environment when the file was missing, was
/// no JSON (`None`), or holds anything else.
pub fn load_jobenv(content: Option<JsonValue>) -> (r: EnvMap)
    ensures
        match content {
            Some(JsonValue::Object(e)) => match env_of_object(e@) {
                Some(m) => r@ == m,
                None => r@ == Map::<Seq<char>, Seq<char>>::empty(),
            },
            _ => r@ == Map::<Seq<char>, Seq<char>>::empty(),
        },
{
    match &content {
        Some(JsonValue::Object(e)) => match env_from_entries(e) {
            Some(m) => m,
            None => EnvMap::new(),
        },
        _ => EnvMap::new(),
    }
}

proof fn lemma_env_of_object_none(entries: Seq<(String, JsonValue)>, i: int)
    requires
        0 <= i <= entries.len(),
        env_of_object(entries.take(i)) is None,
    ensures
        env_of_object(entries) is None,
    decreases entries.len() - i,
{
    if i < entries.len() {
        assert(entries.take(i + 1).drop_last() =~= entries.take(i));
        lemma_env_of_object_none(entries, i + 1);
    } else {
        assert(entries.take(i) =~= entries);
    }
}

/// The job's environment the plugin passes in the data.
pub fn load_jobenv_from_data(data: &IOData) -> (r: EnvMap)
    ensures
        r@ == data.exchange.job_env@,
{
    data.exchange.job_env.duplicate()
}

/// The job's arguments the plugin passes in the data.
pub fn load_jobarg_from_data(data: &IOData) -> (r: Vec<String>)
    ensures
        r@ == data.exchange.job_arg@,
{
    data.exchange.job_arg.clone()
}

} // verus!
