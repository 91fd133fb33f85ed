//! Server and CLI configuration, computed from the raw values of environment
//! variables and the CLI's config file (reading them is the caller's part).

use vstd::prelude::*;
use crate::outside::opt_view;
use crate::text::{chars_of, lower_all, owned, parse_bounded, parse_unsigned, push_str, string_of, to_ascii_lowercase, str_eq};

verus! {

/// Which modules the server mounts.
#[derive(Debug, Clone, Copy)]
pub struct ModuleFlags {
    pub health: bool,
    pub search: bool,
    pub files: bool,
    pub render: bool,
    pub lostandfound: bool,
    pub orbit: bool,
    pub notifications: bool,
    pub installers: bool,
    pub eternal: bool,
    pub obscura: bool,
}

/// A flag value reads as true when, ignoring ASCII case, it is `1`, `true`, `yes` or `on`.
pub open spec fn truthy(v: Seq<char>) -> bool {
    let l = lower_all(v);
    l == "1"@ || l == "true"@ || l == "yes"@ || l == "on"@
}

/// The value of a boolean setting: what the variable says where it is set,
/// else the default.
pub open spec fn bool_setting(value: Option<Seq<char>>, default: bool) -> bool {
    match value {
        Some(v) => truthy(v),
        None => default,
    }
}

/// Reads a boolean setting from the raw value of its variable.
pub fn read_bool_value(value: &Option<String>, default: bool) -> (r: bool)
    ensures
        r == bool_setting(opt_view(*value), default),
{
    match value {
        Some(v) => {
            let l = to_ascii_lowercase(v.as_str());
            let s = string_of(l.as_slice());
            let t = s.as_str();
            str_eq(t, "1") || str_eq(t, "true") || str_eq(t, "yes") || str_eq(t, "on")
        },
        None => default,
    }
}

/// `Path::join` of a base directory and a relative name: the name follows a
/// `/` unless the base is empty or already ends in one.
pub open spec fn joined(base: Seq<char>, name: Seq<char>) -> Seq<char> {
    if base.len() == 0 || base.last() == '/' {
        base + name
    } else {
        base + seq!['/'] + name
    }
}

/// Joins a relative name onto a base directory.
pub fn join_path(base: &str, name: &str) -> (r: String)
    ensures
        r@ == joined(base@, name@),
{
    let v = chars_of(base);
    let mut r = owned(base);
    if v.len() > 0 && v[v.len() - 1] != '/' {
        crate::text::push_char(&mut r, '/');
    }
    push_str(&mut r, name);
    proof {
        if base@.len() > 0 {
            assert(base@.last() == v@[v@.len() - 1]);
        }
    }
    r
}

/// The raw values of the server's environment variables (`None`: unset).
#[derive(Debug)]
pub struct EnvValues {
    pub bind_addr: Option<String>,
    pub data_dir: Option<String>,
    pub log_dir: Option<String>,
    pub installers_dir: Option<String>,
    pub eternal_dir: Option<String>,
    pub api_key: Option<String>,
    pub max_upload_bytes: Option<String>,
    pub max_snippet_chars: Option<String>,
    pub vapid_subject: Option<String>,
    pub obscura_mcp_url: Option<String>,
    pub enable_health: Option<String>,
    pub enable_search: Option<String>,
    pub enable_files: Option<String>,
    pub enable_render: Option<String>,
    pub enable_lostandfound: Option<String>,
    pub enable_orbit: Option<String>,
    pub enable_notifications: Option<String>,
    pub enable_installers: Option<String>,
    pub enable_eternal: Option<String>,
    pub enable_obscura: Option<String>,
}

/// The server's settings. Addresses and directories are kept as text; the
/// caller turns them into a socket address and paths.
#[derive(Debug)]
pub struct ServerConfig {
    pub bind_addr: String,
    pub data_dir: String,
    pub log_dir: String,
    pub installers_dir: String,
    pub eternal_dir: String,
    pub api_key: Option<String>,
    pub max_upload_bytes: u64,
    pub max_snippet_chars: usize,
    pub vapid_subject: String,
    pub obscura_mcp_url: String,
    pub modules: ModuleFlags,
}

/// A text setting: its value where set, else the default.
pub open spec fn text_setting(value: Option<Seq<char>>, default: Seq<char>) -> Seq<char> {
    match value {
        Some(v) => v,
        None => default,
    }
}

/// A numeric setting: its value where set and a number that fits, else the default.
pub open spec fn number_setting(value: Option<Seq<char>>, max: nat, default: nat) -> nat {
    match value {
        Some(v) => match parse_unsigned(v, max) {
            Some(n) => n,
            None => default,
        },
        None => default,
    }
}

fn text_or(value: &Option<String>, default: &str) -> (r: String)
    ensures
        r@ == text_setting(opt_view(*value), default@),
{
    match value {
        Some(v) => v.clone(),
        None => owned(default),
    }
}

fn number_or(value: &Option<String>, max: u64, default: u64) -> (r: u64)
    requires
        default <= max,
    ensures
        r == number_setting(opt_view(*value), max as nat, default as nat),
        r <= max,
{
    match value {
        Some(v) => match parse_bounded(v.as_str(), max) {
            Some(n) => {
                n
            },
            None => default,
        },
        None => default,
    }
}

impl ServerConfig {
    /// The settings the environment gives: each variable's value where set,
    /// else its default (`0.0.0.0:8080`, `data`, `<data dir>/logs`,
    /// `installers`, `eternal`, no key, 1 GiB, 20000 characters, every module on).
    pub fn from_values(env: &EnvValues) -> (c: ServerConfig)
        ensures
            c.bind_addr@ == text_setting(opt_view(env.bind_addr), "0.0.0.0:8080"@),
            c.data_dir@ == text_setting(opt_view(env.data_dir), "data"@),
            c.log_dir@ == text_setting(opt_view(env.log_dir), joined(c.data_dir@, "logs"@)),
            c.installers_dir@ == text_setting(opt_view(env.installers_dir), "installers"@),
            c.eternal_dir@ == text_setting(opt_view(env.eternal_dir), "eternal"@),
            c.api_key == env.api_key,
            c.max_upload_bytes == number_setting(opt_view(env.max_upload_bytes), u64::MAX as nat, 1_073_741_824),
            c.max_snippet_chars == number_setting(opt_view(env.max_snippet_chars), usize::MAX as nat, 20_000),
            c.vapid_subject@ == text_setting(opt_view(env.vapid_subject), "mailto:admin@stardive.space"@),
            c.obscura_mcp_url@ == text_setting(opt_view(env.obscura_mcp_url), "http://127.0.0.1:8787/mcp"@),
            c.modules.health == bool_setting(opt_view(env.enable_health), true),
            c.modules.search == bool_setting(opt_view(env.enable_search), true),
            c.modules.files == bool_setting(opt_view(env.enable_files), true),
            c.modules.render == bool_setting(opt_view(env.enable_render), true),
            c.modules.lostandfound == bool_setting(opt_view(env.enable_lostandfound), true),
            c.modules.orbit == bool_setting(opt_view(env.enable_orbit), true),
            c.modules.notifications == bool_setting(opt_view(env.enable_notifications), true),
            c.modules.installers == bool_setting(opt_view(env.enable_installers), true),
            c.modules.eternal == bool_setting(opt_view(env.enable_eternal), true),
            c.modules.obscura == bool_setting(opt_view(env.enable_obscura), true),
    {
        let bind_addr = text_or(&env.bind_addr, "0.0.0.0:8080");
        let data_dir = text_or(&env.data_dir, "data");
        let log_dir = match &env.log_dir {
            Some(v) => v.clone(),
            None => join_path(data_dir.as_str(), "logs"),
        };
        let installers_dir = text_or(&env.installers_dir, "installers");
        let eternal_dir = text_or(&env.eternal_dir, "eternal");
        let api_key = crate::orbit::clone_opt_string(&env.api_key);
        let max_upload_bytes = number_or(&env.max_upload_bytes, u64::MAX, 1_073_741_824);
        let max_snippet_chars = number_or(&env.max_snippet_chars, usize::MAX as u64, 20_000) as usize;
        let vapid_subject = text_or(&env.vapid_subject, "mailto:admin@stardive.space");
        let obscura_mcp_url = text_or(&env.obscura_mcp_url, "http://127.0.0.1:8787/mcp");
        let modules = ModuleFlags {
            health: read_bool_value(&env.enable_health, true),
            search: read_bool_value(&env.enable_search, true),
            files: read_bool_value(&env.enable_files, true),
            render: read_bool_value(&env.enable_render, true),
            lostandfound: read_bool_value(&env.enable_lostandfound, true),
            orbit: read_bool_value(&env.enable_orbit, true),
            notifications: read_bool_value(&env.enable_notifications, true),
            installers: read_bool_value(&env.enable_installers, true),
            eternal: read_bool_value(&env.enable_eternal, true),
            obscura: read_bool_value(&env.enable_obscura, true),
        };
        ServerConfig {
            bind_addr,
            data_dir,
            log_dir,
            installers_dir,
            eternal_dir,
            api_key,
            max_upload_bytes,
            max_snippet_chars,
            vapid_subject,
            obscura_mcp_url,
            modules,
        }
    }

    /// The server is public (runs without access control) when no key is set.
    pub fn public_mode(&self) -> (r: bool)
        ensures
            r == self.api_key is None,
    {
        self.api_key.is_none()
    }
}

/// The CLI's address when nothing else names one.
pub const DEFAULT_BASE_URL: &'static str = "https://api.stardive.space";

/// Where the CLI talks to, and with which key.
#[derive(Debug)]
pub struct CliConfig {
    pub base_url: String,
    pub api_key: Option<String>,
}

/// The first of the options that is set.
pub open spec fn first_set<T>(a: Option<T>, b: Option<T>, c: Option<T>) -> Option<T> {
    match a {
        Some(x) => Some(x),
        None => match b {
            Some(x) => Some(x),
            None => c,
        },
    }
}

fn first_set_exec(a: Option<String>, b: Option<String>, c: Option<String>) -> (r: Option<String>)
    ensures
        r == first_set(a, b, c),
{
    match a {
        Some(x) => Some(x),
        None => match b {
            Some(x) => Some(x),
            None => c,
        },
    }
}

/// Resolves the CLI's settings: flags win over the environment, the
/// environment over the config file, and the file over the default address.
pub fn resolve_cli_config_values(
    base_url_override: Option<String>,
    api_key_override: Option<String>,
    env_base_url: Option<String>,
    env_api_key: Option<String>,
    file_base_url: Option<String>,
    file_api_key: Option<String>,
) -> (c: CliConfig)
    ensures
        c.base_url@ == (match first_set(base_url_override, env_base_url, file_base_url) {
            Some(u) => u@,
            None => "https://api.stardive.space"@,
        }),
        c.api_key == first_set(api_key_override, env_api_key, file_api_key),
{
    let base = first_set_exec(base_url_override, env_base_url, file_base_url);
    let base_url = match base {
        Some(u) => u,
        None => owned(DEFAULT_BASE_URL),
    };
    CliConfig { base_url, api_key: first_set_exec(api_key_override, env_api_key, file_api_key) }
}

/// The CLI's config file under the user's config directory `dir` (the
/// current directory where there is none): `<dir>/stardive/config.toml`.
pub open spec fn config_path_spec(dir: Option<Seq<char>>) -> Seq<char> {
    joined(
        joined(
            match dir {
                Some(d) => d,
                None => "."@,
            },
            "stardive"@,
        ),
        "config.toml"@,
    )
}

/// The CLI's config file under the config directory `dir`.
pub fn config_path_in(dir: Option<String>) -> (r: String)
    ensures
        r@ == config_path_spec(opt_view(dir)),
{
    let base = match dir {
        Some(d) => d,
        None => owned("."),
    };
    let app_dir = join_path(base.as_str(), "stardive");
    join_path(app_dir.as_str(), "config.toml")
}

/// The CLI's config file under this user's config directory.
pub fn config_path() -> (r: String)
    ensures
        exists|dir: Option<Seq<char>>| r@ == config_path_spec(dir),
{
    let dir = crate::outside::user_config_dir();
    let r = config_path_in(dir);
    assert(r@ == config_path_spec(opt_view(dir)));
    r
}

/// A setting given on the command line always wins.
pub proof fn law_cli_flag_wins<T>(flag: T, env: Option<T>, file: Option<T>)
    ensures
        first_set(Some(flag), env, file) == Some(flag),
{
}

/// Without a flag, a setting in the environment wins over the config file.
pub proof fn law_env_beats_file<T>(env: T, file: Option<T>)
    ensures
        first_set(None, Some(env), file) == Some(env),
{
}

} // verus!
