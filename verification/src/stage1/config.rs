//! The helper's configuration, and how the launch-control service's
//! answer updates it.
use vstd::prelude::*;
use crate::envmap::EnvMap;
use crate::stage1::json::{JsonValue, obj_get, obj_find};
use crate::stage0::config::{expand_or_keep, expand_vars_string};
use crate::stage1::CACHE_PATH;
use crate::stage1::iodata::DataAutoUpdate;
use crate::stage1::outside::{regex_replace_first, spec_regex_replace_first, spec_url_join, spec_url_parses, url_parse_join, UrlJoinError};
use crate::text::{cat, cat3, owned, str_eq};

verus! {

/// Hooks run at points of the container's life.
pub struct ConfigHooks {
    pub parallax_imagestore_create: String,
}

/// The helper's configuration.
pub struct Config {
    pub edf_system_search_path: String,
    pub hooks: ConfigHooks,
    pub launch_control_repository: String,
    pub launch_control_cache_path: String,
    pub parallax_imagestore: String,
    pub parallax_imagestore_keepalive: bool,
    pub parallax_mount_program: String,
    pub parallax_path: String,
    pub parallax_mp_uid: u32,
    pub parallax_mp_gid: u32,
    pub parallax_mp_logfile: String,
    pub parallax_mp_squashfuse_path: String,
    pub perfmon: bool,
    pub podman_module: String,
    pub podman_path: String,
    pub podman_tmp_path: String,
    pub runtime_path: String,
    pub skybox_enabled: bool,
    pub tracking_enabled: bool,
    pub tracking_tool: String,
    pub poison: bool,
}

/// The configuration entries the service may set.
pub enum ConfigKey {
    EdfSystemSearchPath,
    Hooks,
    LaunchControlRepository,
    LaunchControlCachePath,
    ParallaxImagestore,
    ParallaxImagestoreKeepalive,
    ParallaxMountProgram,
    ParallaxPath,
    ParallaxMpUid,
    ParallaxMpGid,
    ParallaxMpLogfile,
    ParallaxMpSquashfusePath,
    Perfmon,
    PodmanModule,
    PodmanPath,
    PodmanTmpPath,
    RuntimePath,
    SkyboxEnabled,
    TrackingEnabled,
    TrackingTool,
    Other,
}

/// The entry a name denotes.
pub open spec fn config_key_of(k: Seq<char>) -> ConfigKey {
    if k == "edf_system_search_path"@ {
        ConfigKey::EdfSystemSearchPath
    } else if k == "hooks"@ {
        ConfigKey::Hooks
    } else if k == "launch_control_repository"@ {
        ConfigKey::LaunchControlRepository
    } else if k == "launch_control_cache_path"@ {
        ConfigKey::LaunchControlCachePath
    } else if k == "parallax_imagestore"@ {
        ConfigKey::ParallaxImagestore
    } else if k == "parallax_imagestore_keepalive"@ {
        ConfigKey::ParallaxImagestoreKeepalive
    } else if k == "parallax_mount_program"@ {
        ConfigKey::ParallaxMountProgram
    } else if k == "parallax_path"@ {
        ConfigKey::ParallaxPath
    } else if k == "parallax_mp_uid"@ {
        ConfigKey::ParallaxMpUid
    } else if k == "parallax_mp_gid"@ {
        ConfigKey::ParallaxMpGid
    } else if k == "parallax_mp_logfile"@ {
        ConfigKey::ParallaxMpLogfile
    } else if k == "parallax_mp_squashfuse_path"@ {
        ConfigKey::ParallaxMpSquashfusePath
    } else if k == "perfmon"@ {
        ConfigKey::Perfmon
    } else if k == "podman_module"@ {
        ConfigKey::PodmanModule
    } else if k == "podman_path"@ {
        ConfigKey::PodmanPath
    } else if k == "podman_tmp_path"@ {
        ConfigKey::PodmanTmpPath
    } else if k == "runtime_path"@ {
        ConfigKey::RuntimePath
    } else if k == "skybox_enabled"@ {
        ConfigKey::SkyboxEnabled
    } else if k == "tracking_enabled"@ {
        ConfigKey::TrackingEnabled
    } else if k == "tracking_tool"@ {
        ConfigKey::TrackingTool
    } else {
        ConfigKey::Other
    }
}

/// The name under which the service gives each entry; `Other` has none.
pub open spec fn config_key_name(k: ConfigKey) -> Option<Seq<char>> {
    match k {
        ConfigKey::EdfSystemSearchPath => Some("edf_system_search_path"@),
        ConfigKey::Hooks => Some("hooks"@),
        ConfigKey::LaunchControlRepository => Some("launch_control_repository"@),
        ConfigKey::LaunchControlCachePath => Some("launch_control_cache_path"@),
        ConfigKey::ParallaxImagestore => Some("parallax_imagestore"@),
        ConfigKey::ParallaxImagestoreKeepalive => Some("parallax_imagestore_keepalive"@),
        ConfigKey::ParallaxMountProgram => Some("parallax_mount_program"@),
        ConfigKey::ParallaxPath => Some("parallax_path"@),
        ConfigKey::ParallaxMpUid => Some("parallax_mp_uid"@),
        ConfigKey::ParallaxMpGid => Some("parallax_mp_gid"@),
        ConfigKey::ParallaxMpLogfile => Some("parallax_mp_logfile"@),
        ConfigKey::ParallaxMpSquashfusePath => Some("parallax_mp_squashfuse_path"@),
        ConfigKey::Perfmon => Some("perfmon"@),
        ConfigKey::PodmanModule => Some("podman_module"@),
        ConfigKey::PodmanPath => Some("podman_path"@),
        ConfigKey::PodmanTmpPath => Some("podman_tmp_path"@),
        ConfigKey::RuntimePath => Some("runtime_path"@),
        ConfigKey::SkyboxEnabled => Some("skybox_enabled"@),
        ConfigKey::TrackingEnabled => Some("tracking_enabled"@),
        ConfigKey::TrackingTool => Some("tracking_tool"@),
        ConfigKey::Other => None,
    }
}

/// Each of the twenty entries is denoted by its own name, and a name that
/// denotes an entry is that entry's name: an entry given under its name in
/// the service's answer updates that entry and no other.
pub proof fn lemma_config_keys_by_name(k: ConfigKey, n: Seq<char>)
    ensures
        config_key_name(k) matches Some(name) ==> config_key_of(name) == k,
        !(config_key_of(n) is Other) ==> config_key_name(config_key_of(n)) == Some(n),
{
    reveal_strlit("edf_system_search_path");
    reveal_strlit("hooks");
    reveal_strlit("launch_control_repository");
    reveal_strlit("launch_control_cache_path");
    reveal_strlit("parallax_imagestore");
    reveal_strlit("parallax_imagestore_keepalive");
    reveal_strlit("parallax_mount_program");
    reveal_strlit("parallax_path");
    reveal_strlit("parallax_mp_uid");
    reveal_strlit("parallax_mp_gid");
    reveal_strlit("parallax_mp_logfile");
    reveal_strlit("parallax_mp_squashfuse_path");
    reveal_strlit("perfmon");
    reveal_strlit("podman_module");
    reveal_strlit("podman_path");
    reveal_strlit("podman_tmp_path");
    reveal_strlit("runtime_path");
    reveal_strlit("skybox_enabled");
    reveal_strlit("tracking_enabled");
    reveal_strlit("tracking_tool");
    assert("edf_system_search_path"@.len() == 22);
    assert("hooks"@.len() == 5);
    assert("launch_control_repository"@.len() == 25);
    assert("launch_control_cache_path"@.len() == 25);
    assert("parallax_imagestore"@.len() == 19);
    assert("parallax_imagestore_keepalive"@.len() == 29);
    assert("parallax_mount_program"@.len() == 22);
    assert("parallax_path"@.len() == 13);
    assert("parallax_mp_uid"@.len() == 15);
    assert("parallax_mp_gid"@.len() == 15);
    assert("parallax_mp_logfile"@.len() == 19);
    assert("parallax_mp_squashfuse_path"@.len() == 27);
    assert("perfmon"@.len() == 7);
    assert("podman_module"@.len() == 13);
    assert("podman_path"@.len() == 11);
    assert("podman_tmp_path"@.len() == 15);
    assert("runtime_path"@.len() == 12);
    assert("skybox_enabled"@.len() == 14);
    assert("tracking_enabled"@.len() == 16);
    assert("tracking_tool"@.len() == 13);
    assert("edf_system_search_path"@[0] != "parallax_mount_program"@[0]);
    assert("launch_control_repository"@[15] != "launch_control_cache_path"@[15]);
    assert("parallax_imagestore"@[9] != "parallax_mp_logfile"@[9]);
    assert("parallax_path"@[1] != "podman_module"@[1]);
    assert("parallax_path"@[0] != "tracking_tool"@[0]);
    assert("parallax_mp_uid"@[12] != "parallax_mp_gid"@[12]);
    assert("parallax_mp_uid"@[1] != "podman_tmp_path"@[1]);
    assert("parallax_mp_gid"@[1] != "podman_tmp_path"@[1]);
    assert("podman_module"@[0] != "tracking_tool"@[0]);
}

/// [`config_key_of`], computed.
pub fn config_key(k: &str) -> (r: ConfigKey)
    ensures
        !(r is Other) ==> config_key_name(r) == Some(k@),
        forall|key: ConfigKey| config_key_name(key) == Some(k@) ==> r == key,
        r == config_key_of(k@),
{
    proof {
        assert forall|key: ConfigKey| config_key_name(key) == Some(k@) implies config_key_of(k@) == key by {
            lemma_config_keys_by_name(key, k@);
        }
        lemma_config_keys_by_name(ConfigKey::Other, k@);
    }
    if str_eq(k, "edf_system_search_path") {
        ConfigKey::EdfSystemSearchPath
    } else if str_eq(k, "hooks") {
        ConfigKey::Hooks
    } else if str_eq(k, "launch_control_repository") {
        ConfigKey::LaunchControlRepository
    } else if str_eq(k, "launch_control_cache_path") {
        ConfigKey::LaunchControlCachePath
    } else if str_eq(k, "parallax_imagestore") {
        ConfigKey::ParallaxImagestore
    } else if str_eq(k, "parallax_imagestore_keepalive") {
        ConfigKey::ParallaxImagestoreKeepalive
    } else if str_eq(k, "parallax_mount_program") {
        ConfigKey::ParallaxMountProgram
    } else if str_eq(k, "parallax_path") {
        ConfigKey::ParallaxPath
    } else if str_eq(k, "parallax_mp_uid") {
        ConfigKey::ParallaxMpUid
    } else if str_eq(k, "parallax_mp_gid") {
        ConfigKey::ParallaxMpGid
    } else if str_eq(k, "parallax_mp_logfile") {
        ConfigKey::ParallaxMpLogfile
    } else if str_eq(k, "parallax_mp_squashfuse_path") {
        ConfigKey::ParallaxMpSquashfusePath
    } else if str_eq(k, "perfmon") {
        ConfigKey::Perfmon
    } else if str_eq(k, "podman_module") {
        ConfigKey::PodmanModule
    } else if str_eq(k, "podman_path") {
        ConfigKey::PodmanPath
    } else if str_eq(k, "podman_tmp_path") {
        ConfigKey::PodmanTmpPath
    } else if str_eq(k, "runtime_path") {
        ConfigKey::RuntimePath
    } else if str_eq(k, "skybox_enabled") {
        ConfigKey::SkyboxEnabled
    } else if str_eq(k, "tracking_enabled") {
        ConfigKey::TrackingEnabled
    } else if str_eq(k, "tracking_tool") {
        ConfigKey::TrackingTool
    } else {
        ConfigKey::Other
    }
}

/// The last text given for the entry `key`.
pub open spec fn last_str(entries: Seq<(String, JsonValue)>, key: ConfigKey) -> Option<Seq<char>>
    decreases entries.len(),
{
    if entries.len() == 0 {
        None
    } else if config_key_of(entries.last().0@) == key && entries.last().1 is Str {
        Some(entries.last().1->Str_0@)
    } else {
        last_str(entries.drop_last(), key)
    }
}

/// The last boolean given for the entry `key`.
pub open spec fn last_bool(entries: Seq<(String, JsonValue)>, key: ConfigKey) -> Option<bool>
    decreases entries.len(),
{
    if entries.len() == 0 {
        None
    } else if config_key_of(entries.last().0@) == key && entries.last().1 is Bool {
        Some(entries.last().1->Bool_0)
    } else {
        last_bool(entries.drop_last(), key)
    }
}

/// The last unsigned integer no larger than `u32::MAX` given for the entry
/// `key`.
pub open spec fn last_u32(entries: Seq<(String, JsonValue)>, key: ConfigKey) -> Option<u32>
    decreases entries.len(),
{
    if entries.len() == 0 {
        None
    } else if config_key_of(entries.last().0@) == key && (entries.last().1 matches JsonValue::Number(Some(n)) && n <= u32::MAX) {
        Some(entries.last().1->Number_0->0 as u32)
    } else {
        last_u32(entries.drop_last(), key)
    }
}

/// The last text given for `parallax_imagestore_create` in the hooks.
pub open spec fn last_hook_str(entries: Seq<(String, JsonValue)>) -> Option<Seq<char>>
    decreases entries.len(),
{
    if entries.len() == 0 {
        None
    } else if entries.last().0@ == "parallax_imagestore_create"@ && entries.last().1 is Str {
        Some(entries.last().1->Str_0@)
    } else {
        last_hook_str(entries.drop_last())
    }
}

/// The last text given for `parallax_imagestore_create` in any `hooks`
/// object of `entries`.
pub open spec fn last_hooks_entry(entries: Seq<(String, JsonValue)>) -> Option<Seq<char>>
    decreases entries.len(),
{
    if entries.len() == 0 {
        None
    } else if config_key_of(entries.last().0@) == ConfigKey::Hooks && entries.last().1 is Object
        && last_hook_str(entries.last().1->Object_0@) is Some {
        last_hook_str(entries.last().1->Object_0@)
    } else {
        last_hooks_entry(entries.drop_last())
    }
}

/// An entry's new value: the given one, else the old one.
pub open spec fn updated<A>(old: A, given: Option<A>) -> A {
    match given {
        Some(v) => v,
        None => old,
    }
}

/// `new` is `old` with the entries of `entries` applied: each setting takes
/// the last value of its type given under its name, and keeps its value
/// when none is given; `poison` never changes.
pub open spec fn config_update(old: Config, new: Config, entries: Seq<(String, JsonValue)>) -> bool {
    &&& new.edf_system_search_path@ == updated(old.edf_system_search_path@, last_str(entries, ConfigKey::EdfSystemSearchPath))
    &&& new.hooks.parallax_imagestore_create@ == updated(old.hooks.parallax_imagestore_create@, last_hooks_entry(entries))
    &&& new.launch_control_repository@ == updated(old.launch_control_repository@, last_str(entries, ConfigKey::LaunchControlRepository))
    &&& new.launch_control_cache_path@ == updated(old.launch_control_cache_path@, last_str(entries, ConfigKey::LaunchControlCachePath))
    &&& new.parallax_imagestore@ == updated(old.parallax_imagestore@, last_str(entries, ConfigKey::ParallaxImagestore))
    &&& new.parallax_imagestore_keepalive == updated(old.parallax_imagestore_keepalive, last_bool(entries, ConfigKey::ParallaxImagestoreKeepalive))
    &&& new.parallax_mount_program@ == updated(old.parallax_mount_program@, last_str(entries, ConfigKey::ParallaxMountProgram))
    &&& new.parallax_path@ == updated(old.parallax_path@, last_str(entries, ConfigKey::ParallaxPath))
    &&& new.parallax_mp_uid == updated(old.parallax_mp_uid, last_u32(entries, ConfigKey::ParallaxMpUid))
    &&& new.parallax_mp_gid == updated(old.parallax_mp_gid, last_u32(entries, ConfigKey::ParallaxMpGid))
    &&& new.parallax_mp_logfile@ == updated(old.parallax_mp_logfile@, last_str(entries, ConfigKey::ParallaxMpLogfile))
    &&& new.parallax_mp_squashfuse_path@ == updated(old.parallax_mp_squashfuse_path@, last_str(entries, ConfigKey::ParallaxMpSquashfusePath))
    &&& new.perfmon == updated(old.perfmon, last_bool(entries, ConfigKey::Perfmon))
    &&& new.podman_module@ == updated(old.podman_module@, last_str(entries, ConfigKey::PodmanModule))
    &&& new.podman_path@ == updated(old.podman_path@, last_str(entries, ConfigKey::PodmanPath))
    &&& new.podman_tmp_path@ == updated(old.podman_tmp_path@, last_str(entries, ConfigKey::PodmanTmpPath))
    &&& new.runtime_path@ == updated(old.runtime_path@, last_str(entries, ConfigKey::RuntimePath))
    &&& new.skybox_enabled == updated(old.skybox_enabled, last_bool(entries, ConfigKey::SkyboxEnabled))
    &&& new.tracking_enabled == updated(old.tracking_enabled, last_bool(entries, ConfigKey::TrackingEnabled))
    &&& new.tracking_tool@ == updated(old.tracking_tool@, last_str(entries, ConfigKey::TrackingTool))
    &&& new.poison == old.poison
}

/// Which of two updates wins: the later one where it gives a value.
pub open spec fn later<A>(first: Option<A>, second: Option<A>) -> Option<A> {
    match second {
        Some(v) => Some(v),
        None => first,
    }
}

proof fn lemma_last_concat(e1: Seq<(String, JsonValue)>, e2: Seq<(String, JsonValue)>, key: ConfigKey)
    ensures
        last_str(e1 + e2, key) == later(last_str(e1, key), last_str(e2, key)),
        last_bool(e1 + e2, key) == later(last_bool(e1, key), last_bool(e2, key)),
        last_u32(e1 + e2, key) == later(last_u32(e1, key), last_u32(e2, key)),
        last_hooks_entry(e1 + e2) == later(last_hooks_entry(e1), last_hooks_entry(e2)),
    decreases e2.len(),
{
    if e2.len() == 0 {
        assert(e1 + e2 =~= e1);
    } else {
        lemma_last_concat(e1, e2.drop_last(), key);
        assert((e1 + e2).drop_last() =~= e1 + e2.drop_last());
        assert((e1 + e2).last() == e2.last());
    }
}

/// Two answers applied one after the other update the configuration as
/// their entries applied at once, the later ones last: a setting takes
/// the value the second answer gives, else the one the first gives.
pub proof fn lemma_config_updates_compose(
    a: Config,
    b: Config,
    c: Config,
    e1: Seq<(String, JsonValue)>,
    e2: Seq<(String, JsonValue)>,
)
    requires
        config_update(a, b, e1),
        config_update(b, c, e2),
    ensures
        config_update(a, c, e1 + e2),
{
    lemma_last_concat(e1, e2, ConfigKey::EdfSystemSearchPath);
    lemma_last_concat(e1, e2, ConfigKey::LaunchControlRepository);
    lemma_last_concat(e1, e2, ConfigKey::LaunchControlCachePath);
    lemma_last_concat(e1, e2, ConfigKey::ParallaxImagestore);
    lemma_last_concat(e1, e2, ConfigKey::ParallaxImagestoreKeepalive);
    lemma_last_concat(e1, e2, ConfigKey::ParallaxMountProgram);
    lemma_last_concat(e1, e2, ConfigKey::ParallaxPath);
    lemma_last_concat(e1, e2, ConfigKey::ParallaxMpUid);
    lemma_last_concat(e1, e2, ConfigKey::ParallaxMpGid);
    lemma_last_concat(e1, e2, ConfigKey::ParallaxMpLogfile);
    lemma_last_concat(e1, e2, ConfigKey::ParallaxMpSquashfusePath);
    lemma_last_concat(e1, e2, ConfigKey::Perfmon);
    lemma_last_concat(e1, e2, ConfigKey::PodmanModule);
    lemma_last_concat(e1, e2, ConfigKey::PodmanPath);
    lemma_last_concat(e1, e2, ConfigKey::PodmanTmpPath);
    lemma_last_concat(e1, e2, ConfigKey::RuntimePath);
    lemma_last_concat(e1, e2, ConfigKey::SkyboxEnabled);
    lemma_last_concat(e1, e2, ConfigKey::TrackingEnabled);
    lemma_last_concat(e1, e2, ConfigKey::TrackingTool);
}

/// Applying the same answer twice changes nothing more than applying it
/// once.
pub proof fn lemma_config_update_idempotent(a: Config, b: Config, c: Config, e: Seq<(String, JsonValue)>)
    requires
        config_update(a, b, e),
        config_update(b, c, e),
    ensures
        config_update(a, c, e),
{
}

/// Applies the `parallax_imagestore_create` entries of a `hooks` object.
pub fn update_confighooks_from_value(cfghooks: &mut ConfigHooks, value: &JsonValue)
    ensures
        match *value {
            JsonValue::Object(e) => final(cfghooks).parallax_imagestore_create@
                == updated(old(cfghooks).parallax_imagestore_create@, last_hook_str(e@)),
            _ => final(cfghooks).parallax_imagestore_create@ == old(cfghooks).parallax_imagestore_create@,
        },
{
    let hooks_obj = match value {
        JsonValue::Object(e) => e,
        _ => {
            return;
        },
    };
    let ghost start = cfghooks.parallax_imagestore_create@;
    for i in 0..hooks_obj.len()
        invariant
            cfghooks.parallax_imagestore_create@ == updated(start, last_hook_str(hooks_obj@.take(i as int))),
    {
        let (key, v) = &hooks_obj[i];
        assert(hooks_obj@.take(i + 1).drop_last() =~= hooks_obj@.take(i as int));
        assert(hooks_obj@.take(i + 1).last() == hooks_obj@[i as int]);
        if str_eq(key.as_str(), "parallax_imagestore_create") {
            match v {
                JsonValue::Str(s) => {
                    cfghooks.parallax_imagestore_create = s.clone();
                },
                _ => {},
            }
        }
    }
    assert(hooks_obj@.take(hooks_obj@.len() as int) =~= hooks_obj@);
}

/// Applies a configuration object (see [`config_update`]); anything other
/// than an object changes nothing.
pub fn update_config_from_value(config: &mut Config, value: &JsonValue)
    ensures
        match *value {
            JsonValue::Object(e) => config_update(*old(config), *final(config), e@),
            _ => *final(config) == *old(config),
        },
{
    let config_obj = match value {
        JsonValue::Object(e) => e,
        _ => {
            return;
        },
    };
    let ghost start = *config;
    assert(config_update(start, *config, config_obj@.take(0)));
    for i in 0..config_obj.len()
        invariant
            config_update(start, *config, config_obj@.take(i as int)),
    {
        let (key, value) = &config_obj[i];
        let ghost pre = config_obj@.take(i as int);
        let ghost post = config_obj@.take(i + 1);
        assert(post.drop_last() =~= pre);
        assert(post.last() == config_obj@[i as int]);
        let kind = config_key(key.as_str());
        match kind {
            ConfigKey::EdfSystemSearchPath => {
                match value {
                    JsonValue::Str(s) => {
                        config.edf_system_search_path = s.clone();
                    },
                    _ => {},
                }
            },
            ConfigKey::Hooks => {
                match value {
                    JsonValue::Object(_) => {
                        update_confighooks_from_value(&mut config.hooks, value);
                    },
                    _ => {},
                }
            },
            ConfigKey::LaunchControlRepository => {
                match value {
                    JsonValue::Str(s) => {
                        config.launch_control_repository = s.clone();
                    },
                    _ => {},
                }
            },
            ConfigKey::LaunchControlCachePath => {
                match value {
                    JsonValue::Str(s) => {
                        config.launch_control_cache_path = s.clone();
                    },
                    _ => {},
                }
            },
            ConfigKey::ParallaxImagestore => {
                match value {
                    JsonValue::Str(s) => {
                        config.parallax_imagestore = s.clone();
                    },
                    _ => {},
                }
            },
            ConfigKey::ParallaxImagestoreKeepalive => {
                match value {
                    JsonValue::Bool(b) => {
                        config.parallax_imagestore_keepalive = *b;
                    },
                    _ => {},
                }
            },
            ConfigKey::ParallaxMountProgram => {
                match value {
                    JsonValue::Str(s) => {
                        config.parallax_mount_program = s.clone();
                    },
                    _ => {},
                }
            },
            ConfigKey::ParallaxPath => {
                match value {
                    JsonValue::Str(s) => {
                        config.parallax_path = s.clone();
                    },
                    _ => {},
                }
            },
            ConfigKey::ParallaxMpUid => {
                match value {
                    JsonValue::Number(Some(n)) => {
                        if *n <= 0xffff_ffff {
                            config.parallax_mp_uid = *n as u32;
                        }
                    },
                    _ => {},
                }
            },
            ConfigKey::ParallaxMpGid => {
                match value {
                    JsonValue::Number(Some(n)) => {
                        if *n <= 0xffff_ffff {
                            config.parallax_mp_gid = *n as u32;
                        }
                    },
                    _ => {},
                }
            },
            ConfigKey::ParallaxMpLogfile => {
                match value {
                    JsonValue::Str(s) => {
                        config.parallax_mp_logfile = s.clone();
                    },
                    _ => {},
                }
            },
            ConfigKey::ParallaxMpSquashfusePath => {
                match value {
                    JsonValue::Str(s) => {
                        config.parallax_mp_squashfuse_path = s.clone();
                    },
                    _ => {},
                }
            },
            ConfigKey::Perfmon => {
                match value {
                    JsonValue::Bool(b) => {
                        config.perfmon = *b;
                    },
                    _ => {},
                }
            },
            ConfigKey::PodmanModule => {
                match value {
                    JsonValue::Str(s) => {
                        config.podman_module = s.clone();
                    },
                    _ => {},
                }
            },
            ConfigKey::PodmanPath => {
                match value {
                    JsonValue::Str(s) => {
                        config.podman_path = s.clone();
                    },
                    _ => {},
                }
            },
            ConfigKey::PodmanTmpPath => {
                match value {
                    JsonValue::Str(s) => {
                        config.podman_tmp_path = s.clone();
                    },
                    _ => {},
                }
            },
            ConfigKey::RuntimePath => {
                match value {
                    JsonValue::Str(s) => {
                        config.runtime_path = s.clone();
                    },
                    _ => {},
                }
            },
            ConfigKey::SkyboxEnabled => {
                match value {
                    JsonValue::Bool(b) => {
                        config.skybox_enabled = *b;
                    },
                    _ => {},
                }
            },
            ConfigKey::TrackingEnabled => {
                match value {
                    JsonValue::Bool(b) => {
                        config.tracking_enabled = *b;
                    },
                    _ => {},
                }
            },
            ConfigKey::TrackingTool => {
                match value {
                    JsonValue::Str(s) => {
                        config.tracking_tool = s.clone();
                    },
                    _ => {},
                }
            },
            ConfigKey::Other => {},
        }
    }
    assert(config_obj@.take(config_obj@.len() as int) =~= config_obj@);
}

impl Config {
    /// A copy of the configuration.
    pub fn duplicate(&self) -> (r: Config)
        ensures
            r == *self,
    {
        Config {
            hooks: ConfigHooks { parallax_imagestore_create: self.hooks.parallax_imagestore_create.clone() },
            edf_system_search_path: self.edf_system_search_path.clone(),
            launch_control_repository: self.launch_control_repository.clone(),
            launch_control_cache_path: self.launch_control_cache_path.clone(),
            parallax_imagestore: self.parallax_imagestore.clone(),
            parallax_mount_program: self.parallax_mount_program.clone(),
            parallax_path: self.parallax_path.clone(),
            parallax_mp_logfile: self.parallax_mp_logfile.clone(),
            parallax_mp_squashfuse_path: self.parallax_mp_squashfuse_path.clone(),
            podman_module: self.podman_module.clone(),
            podman_path: self.podman_path.clone(),
            podman_tmp_path: self.podman_tmp_path.clone(),
            runtime_path: self.runtime_path.clone(),
            tracking_tool: self.tracking_tool.clone(),
            parallax_imagestore_keepalive: self.parallax_imagestore_keepalive,
            perfmon: self.perfmon,
            skybox_enabled: self.skybox_enabled,
            tracking_enabled: self.tracking_enabled,
            poison: self.poison,
            parallax_mp_uid: self.parallax_mp_uid,
            parallax_mp_gid: self.parallax_mp_gid,
        }
    }
}

/// Applies the `config` entry of the service's answer to a copy of
/// `old_config`; an answer that is not an object, or has no such entry,
/// leaves it as it is.
pub fn update_config_from_json(old_config: &Config, json: &JsonValue) -> (r: Config)
    ensures
        match *json {
            JsonValue::Object(e) => match obj_get(e@, "config"@) {
                Some(JsonValue::Object(ce)) => config_update(*old_config, r, ce@),
                _ => r == *old_config,
            },
            _ => r == *old_config,
        },
{
    let mut config = old_config.duplicate();
    let root = match json {
        JsonValue::Object(e) => e,
        _ => {
            return config;
        },
    };
    match obj_find(root, "config") {
        Some(i) => {
            update_config_from_value(&mut config, &root[i].1);
        },
        None => {},
    }
    config
}

/// The version of the helper the service asks for: both
/// `stage1_repository` and `stage1_version` must be texts.
pub fn get_auto_update_data_from_json(json: &JsonValue) -> (r: Option<DataAutoUpdate>)
    ensures
        match *json {
            JsonValue::Object(e) => match (obj_get(e@, "stage1_repository"@), obj_get(e@, "stage1_version"@)) {
                (Some(JsonValue::Str(repo)), Some(JsonValue::Str(ver))) =>
                    r matches Some(au) && au.repository@ == repo@ && au.version@ == ver@,
                _ => r is None,
            },
            _ => r is None,
        },
{
    let root = match json {
        JsonValue::Object(e) => e,
        _ => {
            return None;
        },
    };
    let stage1_repository = match obj_find(root, "stage1_repository") {
        Some(i) => match &root[i].1 {
            JsonValue::Str(s) => s.clone(),
            _ => {
                return None;
            },
        },
        None => {
            return None;
        },
    };
    let stage1_version = match obj_find(root, "stage1_version") {
        Some(i) => match &root[i].1 {
            JsonValue::Str(s) => s.clone(),
            _ => {
                return None;
            },
        },
        None => {
            return None;
        },
    };
    Some(DataAutoUpdate { repository: stage1_repository, version: stage1_version })
}

/// The value of `k` in `env`, or `default`.
pub open spec fn env_or(env: Map<Seq<char>, Seq<char>>, k: Seq<char>, default: Seq<char>) -> Seq<char> {
    if env.contains_key(k) {
        env[k]
    } else {
        default
    }
}

fn env_or_exec(env: &EnvMap, k: &str, default: &str) -> (r: String)
    ensures
        r@ == env_or(env@, k@, default@),
{
    match env.get(k) {
        Some(v) => v,
        None => owned(default),
    }
}

/// What the helper tells the service: the job (`SLURM_JOB_ID`, else `0`),
/// the system (`CLUSTER_NAME`), the account (`SLURM_JOB_ACCOUNT`, else the
/// caller's group) and the user (`SLURM_JOB_USER`, else `USER`); anything
/// unknown is `UNKNOWN`.
pub open spec fn query_input(env: Map<Seq<char>, Seq<char>>, group: Option<Seq<char>>) -> Map<Seq<char>, Seq<char>> {
    let account = env_or(env, "SLURM_JOB_ACCOUNT"@, "UNKNOWN"@);
    let user = env_or(env, "SLURM_JOB_USER"@, "UNKNOWN"@);
    Map::empty()
        .insert("job"@, env_or(env, "SLURM_JOB_ID"@, "0"@))
        .insert("system"@, env_or(env, "CLUSTER_NAME"@, "UNKNOWN"@))
        .insert("account"@, if account != "UNKNOWN"@ { account } else {
            match group {
                Some(g) => g,
                None => "UNKNOWN"@,
            }
        })
        .insert("user"@, if user != "UNKNOWN"@ { user } else { env_or(env, "USER"@, "UNKNOWN"@) })
}

/// The query to the service (see [`query_input`]); `group` is the caller's
/// group name when it is known and valid text.
pub fn build_query_input(env: &EnvMap, group: Option<String>) -> (r: EnvMap)
    ensures
        r@ == query_input(env@, crate::expand::opt_view(group)),
{
    let mut input = EnvMap::new();
    let job = env_or_exec(env, "SLURM_JOB_ID", "0");
    let system = env_or_exec(env, "CLUSTER_NAME", "UNKNOWN");
    let remote_account = env_or_exec(env, "SLURM_JOB_ACCOUNT", "UNKNOWN");
    let account = if !str_eq(remote_account.as_str(), "UNKNOWN") {
        remote_account
    } else {
        match group {
            Some(g) => g,
            None => owned("UNKNOWN"),
        }
    };
    let remote_user = env_or_exec(env, "SLURM_JOB_USER", "UNKNOWN");
    let user = if !str_eq(remote_user.as_str(), "UNKNOWN") {
        remote_user
    } else {
        env_or_exec(env, "USER", "UNKNOWN")
    };
    input.insert(owned("job"), job);
    input.insert(owned("system"), system);
    input.insert(owned("account"), account);
    input.insert(owned("user"), user);
    input
}

/// The caller's cache directory: [`CACHE_PATH`] expanded from the
/// process's environment (kept as it is when that fails), then the caller
/// id (`SLURM_STAGE0_CALLER_ID`) below it; `None` without a caller id.
pub fn get_cache_dir_path(env: &EnvMap) -> (r: Option<String>)
    ensures
        env@.contains_key("SLURM_STAGE0_CALLER_ID"@) ==> (r matches Some(p)
            && p@ == expand_or_keep(CACHE_PATH@, env@) + "/"@ + env@["SLURM_STAGE0_CALLER_ID"@]),
        !env@.contains_key("SLURM_STAGE0_CALLER_ID"@) ==> r is None,
{
    let cache_path = match expand_vars_string(owned(CACHE_PATH), env) {
        Ok(p) => p,
        Err(_) => owned(CACHE_PATH),
    };
    match env.get("SLURM_STAGE0_CALLER_ID") {
        Some(c) => Some(cat3(cache_path.as_str(), "/", c.as_str())),
        None => None,
    }
}

/// The pattern of the task part of a caller id.
pub const TASK_SUFFIX_PATTERN: &'static str = "_task_\\d+";

/// Where the configuration is cached: `config.json` in the caller's cache
/// directory, with the task part of the caller id (`_task_<n>`) removed so
/// that all tasks of a step share it. `None` when the pattern is rejected.
pub fn config_cache_file_path(cache_dir_path: &str) -> (r: Option<String>)
    ensures
        crate::expand::opt_view(r) == spec_regex_replace_first(TASK_SUFFIX_PATTERN@, cache_dir_path@ + "/config.json"@, ""@),
{
    let path = cat(cache_dir_path, "/config.json");
    regex_replace_first(TASK_SUFFIX_PATTERN, path.as_str(), "")
}

/// What asking the launch-control service comes to.
pub enum LaunchControlQuery {
    /// Do not ask: no service is configured, or its address is not a URL.
    Skip,
    /// The service's address cannot take the query path.
    BadAddress,
    /// Ask at this URL.
    Ask(String),
}

/// Where to ask the launch-control service: `/get_config` joined to the
/// configured repository, when there is one and it is a URL.
pub fn launch_control_query_url(config: &Config) -> (r: LaunchControlQuery)
    ensures
        config.launch_control_repository@ == ""@ ==> r is Skip,
        config.launch_control_repository@ != ""@ && !spec_url_parses(config.launch_control_repository@) ==> r is Skip,
        config.launch_control_repository@ != ""@ && spec_url_parses(config.launch_control_repository@) ==> match spec_url_join(config.launch_control_repository@, "/get_config"@) {
            Some(u) => r matches LaunchControlQuery::Ask(s) && s@ == u,
            None => r is BadAddress,
        },
{
    let repo = config.launch_control_repository.as_str();
    if str_eq(repo, "") {
        return LaunchControlQuery::Skip;
    }
    match url_parse_join(repo, "/get_config") {
        Ok(u) => LaunchControlQuery::Ask(u),
        Err(UrlJoinError::BadBase) => LaunchControlQuery::Skip,
        Err(UrlJoinError::BadJoin) => LaunchControlQuery::BadAddress,
    }
}

} // verus!
