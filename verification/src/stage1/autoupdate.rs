//! Running a requested version of the helper instead of this one.
use vstd::prelude::*;
use crate::envmap::EnvMap;
use crate::expand::spec_env_expand;
use crate::stage0::config::{expand_or_keep, expand_vars_string};
use crate::stage1::{CACHE_PATH, VERSION};
use crate::stage1::iodata::{DataAutoUpdate, IOData};
use crate::stage1::outside::{spec_url_join, url_parse_join};
use crate::text::{cat, cat3, has_prefix, join_path, owned, path_join, starts_with, str_eq};

verus! {

/// This helper's version.
pub fn get_current_version() -> (r: String)
    ensures
        r@ == VERSION@,
{
    owned(VERSION)
}

/// Where a version of the helper is kept: below the cache directory,
/// `stage1/<version>/stage1`.
pub open spec fn target_file_path(version: Seq<char>, env: Map<Seq<char>, Seq<char>>) -> Seq<char> {
    expand_or_keep(CACHE_PATH@, env) + "/"@ + ("stage1/"@ + version + "/stage1"@)
}

/// Where a version of the helper is kept (see [`target_file_path`]), with
/// the cache directory expanded from `env`.
pub fn get_target_file_path(version: &str, env: &EnvMap) -> (r: String)
    ensures
        r@ == target_file_path(version@, env@),
{
    let cache_path = match expand_vars_string(owned(CACHE_PATH), env) {
        Ok(p) => p,
        Err(_) => owned(CACHE_PATH),
    };
    let relative = cat3("stage1/", version, "/stage1");
    cat3(cache_path.as_str(), "/", relative.as_str())
}

/// Where a version is fetched from: for a repository given as an
/// `http` URL, `<version>/stage1` joined to it as a URL (`None` when that
/// fails); for one given as an absolute path, `<version>/stage1` below it;
/// for anything else, nothing (the empty text).
pub open spec fn source_file_path(au: DataAutoUpdate) -> Option<Seq<char>> {
    let rel = au.version@ + "/stage1"@;
    if has_prefix(au.repository@, "http"@) {
        spec_url_join(au.repository@, rel)
    } else if has_prefix(au.repository@, "/"@) {
        Some(path_join(au.repository@, rel))
    } else {
        Some(""@)
    }
}

/// Where a version is fetched from (see [`source_file_path`]).
pub fn get_source_file_path(au: &DataAutoUpdate) -> (r: Option<String>)
    ensures
        crate::expand::opt_view(r) == source_file_path(*au),
{
    let rel = cat(au.version.as_str(), "/stage1");
    if starts_with(au.repository.as_str(), "http") {
        match url_parse_join(au.repository.as_str(), rel.as_str()) {
            Ok(u) => Some(u),
            Err(_) => None,
        }
    } else if starts_with(au.repository.as_str(), "/") {
        Some(join_path(au.repository.as_str(), rel.as_str()))
    } else {
        Some(owned(""))
    }
}

/// How a version is fetched.
pub enum Fetch {
    /// Download from the URL to the path.
    Download { url: String, target: String },
    /// Copy from the first path to the second.
    Copy { source: String, target: String },
}

/// How to fetch the version `au` asks for into `target`: download from an
/// `http` source, copy from an absolute one; `Err` without a source. `None`
/// inside `Ok` stands for a source that is neither (nothing to do).
pub fn fetch_plan(au: &DataAutoUpdate, target: &str) -> (r: Result<Option<Fetch>, ()>)
    ensures
        match source_file_path(*au) {
            None => r matches Err(_),
            Some(src) => if src == ""@ {
                r matches Err(_)
            } else if has_prefix(src, "http"@) {
                r matches Ok(Some(Fetch::Download { url, target: t })) && url@ == src && t@ == target@
            } else if has_prefix(src, "/"@) {
                r matches Ok(Some(Fetch::Copy { source, target: t })) && source@ == src && t@ == target@
            } else {
                r matches Ok(None)
            },
        },
{
    let file_path = match get_source_file_path(au) {
        Some(p) => p,
        None => {
            return Err(());
        },
    };
    if str_eq(file_path.as_str(), "") {
        return Err(());
    }
    if starts_with(file_path.as_str(), "http") {
        Ok(Some(Fetch::Download { url: file_path, target: owned(target) }))
    } else if starts_with(file_path.as_str(), "/") {
        Ok(Some(Fetch::Copy { source: file_path, target: owned(target) }))
    } else {
        Ok(None)
    }
}

/// Whether the requested version must be fetched: when it is not this one
/// and is not kept yet.
pub fn needs_fetch(current: &str, au: &DataAutoUpdate, target_exists: bool) -> (r: bool)
    ensures
        r == (current@ != au.version@ && !target_exists),
{
    !str_eq(current, au.version.as_str()) && !target_exists
}

/// Whether the requested version is recorded after an attempt to fetch
/// it: only when the fetch succeeded and the file is there.
pub fn record_after_fetch(fetched: bool, target_exists: bool) -> (r: bool)
    ensures
        r == (fetched && target_exists),
{
    fetched && target_exists
}

/// The requested version recorded in the data, when there is one. The
/// data must carry the helper's own part.
pub fn data2au(data: &IOData) -> (r: Option<DataAutoUpdate>)
    requires
        data.forward is Some,
    ensures
        match data.forward->0.auto_update {
            Some(au) => r matches Some(a) && a == au,
            None => r is None,
        },
{
    match &data.forward {
        Some(f) => match &f.auto_update {
            Some(au) => Some(DataAutoUpdate { repository: au.repository.clone(), version: au.version.clone() }),
            None => None,
        },
        None => None,
    }
}

/// Records the requested version in the helper's part of the data; data
/// without that part is left as it is.
pub fn au2data(au: &DataAutoUpdate, data: &mut IOData)
    ensures
        match old(data).forward {
            Some(f) => final(data).forward matches Some(g) && g.config == f.config && g.auto_update == Some(*au),
            None => final(data).forward is None,
        },
        final(data).source == old(data).source,
        final(data).exchange == old(data).exchange,
{
    match &mut data.forward {
        None => {},
        Some(d) => {
            d.auto_update = Some(DataAutoUpdate { repository: au.repository.clone(), version: au.version.clone() });
        },
    }
}

/// The helper to run: the requested version when one is recorded and kept
/// (`target_exists` says whether its [`get_target_file_path`] exists),
/// else this one (`exe_path`).
pub fn get_requested_exe_path(exe_path: &str, au: &Option<DataAutoUpdate>, env: &EnvMap, target_exists: bool) -> (r: String)
    ensures
        match au {
            Some(a) => if target_exists { r@ == target_file_path(a.version@, env@) } else { r@ == exe_path@ },
            None => r@ == exe_path@,
        },
{
    match au {
        None => owned(exe_path),
        Some(a) => {
            if target_exists {
                get_target_file_path(a.version.as_str(), env)
            } else {
                owned(exe_path)
            }
        },
    }
}

} // verus!
