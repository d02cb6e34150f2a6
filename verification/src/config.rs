//! Where the application keeps its files, and how settings are chosen between the
//! configuration file and the environment.
use vstd::prelude::*;
use crate::text::{concat, owned};

verus! {

// ---------------------------------------------------------------------------
// Paths
// ---------------------------------------------------------------------------
/// `base` joined with `name`, as `Path::join` does on Unix: an absolute `name` (one that
/// starts at the root) replaces `base`; otherwise a separator is put between them unless
/// `base` is empty or already ends with one.
pub open spec fn path_join(base: Seq<char>, name: Seq<char>) -> Seq<char> {
    if name.len() > 0 && name[0] == '/' {
        name
    } else if base.len() == 0 {
        name
    } else if base.last() == '/' {
        base + name
    } else {
        base + seq!['/'] + name
    }
}

/// `base` joined with `name`.
pub fn join_path(base: &str, name: &str) -> (r: String)
    ensures
        r@ == path_join(base@, name@),
{
    let n = crate::text::chars_of(name);
    if n.len() > 0 && n[0] == '/' {
        return owned(name);
    }
    if base.is_empty() {
        return owned(name);
    }
    let v = crate::text::chars_of(base);
    if v[v.len() - 1] == '/' {
        concat(base, name)
    } else {
        let with_sep = concat(base, "/");
        proof {
            reveal_strlit("/");
            assert("/"@ =~= seq!['/']);
        }
        concat(with_sep.as_str(), name)
    }
}

/// The text after the last `/` of a path (all of it when there is none): its file name.
pub open spec fn after_last_separator(p: Seq<char>) -> Seq<char>
    decreases p.len(),
{
    if p.len() == 0 {
        p
    } else if p.last() == '/' {
        Seq::empty()
    } else {
        after_last_separator(p.drop_last()).push(p.last())
    }
}

/// The text before the last `/` of a path (empty when there is none): its directory.
pub open spec fn before_last_separator(p: Seq<char>) -> Seq<char>
    decreases p.len(),
{
    if p.len() == 0 {
        p
    } else if p.last() == '/' {
        p.drop_last()
    } else {
        before_last_separator(p.drop_last())
    }
}

/// A file name: non-empty, without a separator.
pub open spec fn is_file_name(name: Seq<char>) -> bool {
    name.len() > 0 && forall|i: int| 0 <= i < name.len() ==> name[i] != '/'
}

proof fn lemma_split_at_last_separator(q: Seq<char>, name: Seq<char>)
    requires
        forall|i: int| 0 <= i < name.len() ==> name[i] != '/',
    ensures
        after_last_separator(q + seq!['/'] + name) == name,
        before_last_separator(q + seq!['/'] + name) == q,
    decreases name.len(),
{
    let p = q + seq!['/'] + name;
    if name.len() == 0 {
        assert(p.drop_last() =~= q);
    } else {
        let init = name.drop_last();
        lemma_split_at_last_separator(q, init);
        assert(p.drop_last() =~= q + seq!['/'] + init);
        assert(p.last() == name.last());
        assert(init.push(name.last()) =~= name);
    }
}

/// A file joined to a non-empty directory sits in that directory under its own name:
/// the joined path's file name is the name, and the text before it is the directory
/// (without the one trailing separator it may have had).
pub proof fn law_joined_file_sits_in_directory(dir: Seq<char>, name: Seq<char>)
    requires
        dir.len() > 0,
        is_file_name(name),
    ensures
        after_last_separator(path_join(dir, name)) == name,
        before_last_separator(path_join(dir, name)) == if dir.last() == '/' {
            dir.drop_last()
        } else {
            dir
        },
{
    if dir.last() == '/' {
        assert(dir =~= dir.drop_last() + seq!['/']);
        assert(dir + name =~= dir.drop_last() + seq!['/'] + name);
        lemma_split_at_last_separator(dir.drop_last(), name);
    } else {
        lemma_split_at_last_separator(dir, name);
    }
}

/// Different file names joined to the same directory give different paths, so the
/// files of the asset directory (configuration, profiles, credentials, keys) never
/// coincide.
pub proof fn law_distinct_files_distinct_paths(dir: Seq<char>, a: Seq<char>, b: Seq<char>)
    requires
        dir.len() > 0,
        is_file_name(a),
        is_file_name(b),
        a != b,
    ensures
        path_join(dir, a) != path_join(dir, b),
{
    law_joined_file_sits_in_directory(dir, a);
    law_joined_file_sits_in_directory(dir, b);
}

/// The asset directory used when nothing else names one.
pub open spec fn default_asset_dir() -> Seq<char> {
    "/Users/lianghusile/dave/appData/daves-vibe-kanban"@
}

/// The production asset directory.
pub fn prod_asset_dir_path() -> (r: String)
    ensures
        r@ == default_asset_dir(),
{
    owned("/Users/lianghusile/dave/appData/daves-vibe-kanban")
}

/// The asset directory: the `VK_ASSET_DIR` override when it is set, else the one the
/// configuration file names, else the default.
pub fn resolve_asset_dir(env_override: Option<String>, config_asset_dir: Option<String>) -> (r: String)
    ensures
        r@ == (match env_override {
            Some(e) => e@,
            None => match config_asset_dir {
                Some(c) => c@,
                None => default_asset_dir(),
            },
        }),
{
    match env_override {
        Some(e) => e,
        None => match config_asset_dir {
            Some(c) => c,
            None => prod_asset_dir_path(),
        },
    }
}

fn asset_file(asset_dir: &str, name: &str) -> (r: String)
    ensures
        r@ == path_join(asset_dir@, name@),
{
    join_path(asset_dir, name)
}

/// `config.json` in the asset directory.
pub fn config_path(asset_dir: &str) -> (r: String)
    ensures
        r@ == path_join(asset_dir@, "config.json"@),
{
    proof {
        reveal_strlit("config.json");
    }
    asset_file(asset_dir, "config.json")
}

/// `profiles.json` in the asset directory.
pub fn profiles_path(asset_dir: &str) -> (r: String)
    ensures
        r@ == path_join(asset_dir@, "profiles.json"@),
{
    proof {
        reveal_strlit("profiles.json");
    }
    asset_file(asset_dir, "profiles.json")
}

/// `credentials.json` in the asset directory.
pub fn credentials_path(asset_dir: &str) -> (r: String)
    ensures
        r@ == path_join(asset_dir@, "credentials.json"@),
{
    proof {
        reveal_strlit("credentials.json");
    }
    asset_file(asset_dir, "credentials.json")
}

/// `trusted_ed25519_public_keys.json` in the asset directory.
pub fn trusted_keys_path(asset_dir: &str) -> (r: String)
    ensures
        r@ == path_join(asset_dir@, "trusted_ed25519_public_keys.json"@),
{
    proof {
        reveal_strlit("trusted_ed25519_public_keys.json");
    }
    asset_file(asset_dir, "trusted_ed25519_public_keys.json")
}

/// `server_ed25519_signing_key` in the asset directory.
pub fn server_signing_key_path(asset_dir: &str) -> (r: String)
    ensures
        r@ == path_join(asset_dir@, "server_ed25519_signing_key"@),
{
    proof {
        reveal_strlit("server_ed25519_signing_key");
    }
    asset_file(asset_dir, "server_ed25519_signing_key")
}

/// `relay_host_credentials.json` in the asset directory.
pub fn relay_host_credentials_path(asset_dir: &str) -> (r: String)
    ensures
        r@ == path_join(asset_dir@, "relay_host_credentials.json"@),
{
    proof {
        reveal_strlit("relay_host_credentials.json");
    }
    asset_file(asset_dir, "relay_host_credentials.json")
}

// ---------------------------------------------------------------------------
// The environment configuration file
// ---------------------------------------------------------------------------
pub struct PathConfig {
    pub asset_dir: Option<String>,
    pub cache_dir: Option<String>,
}

pub struct ServerConfig {
    pub host: Option<String>,
    pub port: Option<String>,
    pub preview_proxy_port: Option<String>,
    pub allowed_origins: Option<String>,
}

pub struct RemoteConfig {
    pub vk_shared_api_base: Option<String>,
    pub vk_shared_relay_api_base: Option<String>,
}

pub struct TelemetryConfig {
    pub posthog_api_key: Option<String>,
    pub posthog_api_endpoint: Option<String>,
    pub sentry_dsn: Option<String>,
    pub sentry_dsn_remote: Option<String>,
}

pub struct FrontendConfig {
    pub frontend_port: Option<String>,
}

pub struct FeatureConfig {
    pub disable_worktree_cleanup: Option<bool>,
}

/// The sections of the environment configuration file.
pub struct DaveEnvConfig {
    pub paths: PathConfig,
    pub server: ServerConfig,
    pub remote: RemoteConfig,
    pub telemetry: TelemetryConfig,
    pub frontend: FrontendConfig,
    pub features: FeatureConfig,
}

/// The configuration file used when `DAVES_ENV_CONFIG_PATH` is not set.
pub open spec fn default_env_config_path() -> Seq<char> {
    "/Users/lianghusile/dave/appData/daves-vibe-kanban/daves_env_config.json"@
}

/// The path of the environment configuration file, given the value of
/// `DAVES_ENV_CONFIG_PATH` (if set).
pub fn env_config_path(env_value: Option<String>) -> (r: String)
    ensures
        r@ == (match env_value {
            Some(v) => v@,
            None => default_env_config_path(),
        }),
{
    match env_value {
        Some(v) => v,
        None => owned("/Users/lianghusile/dave/appData/daves-vibe-kanban/daves_env_config.json"),
    }
}

/// The text of an optional value when it is there and non-empty.
pub open spec fn non_empty(v: Option<&str>) -> Option<Seq<char>> {
    match v {
        Some(s) => if s@.len() > 0 {
            Some(s@)
        } else {
            None
        },
        None => None,
    }
}

/// A setting: the configured value when it is non-empty, else the environment variable's
/// value when it is non-empty, else none.
pub fn resolve_string(config_value: Option<&str>, env_value: Option<&str>) -> (r: Option<String>)
    ensures
        crate::kimi::opt_view(r) == (match non_empty(config_value) {
            Some(c) => Some(c),
            None => non_empty(env_value),
        }),
{
    if let Some(c) = config_value {
        if !c.is_empty() {
            return Some(owned(c));
        }
    }
    if let Some(e) = env_value {
        if !e.is_empty() {
            return Some(owned(e));
        }
    }
    None
}

/// The log level: the value of `VK_LOG_LEVEL` when it is set and non-empty, else "info".
pub fn resolve_log_level(env_value: Option<&str>) -> (r: String)
    ensures
        r@ == (match env_value {
            Some(v) => if v@.len() > 0 {
                v@
            } else {
                "info"@
            },
            None => "info"@,
        }),
{
    match env_value {
        Some(v) => if !v.is_empty() {
            owned(v)
        } else {
            owned("info")
        },
        None => owned("info"),
    }
}

} // verus!
