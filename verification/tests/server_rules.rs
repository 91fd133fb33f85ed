use stardive::auth::authorize;
use stardive::config::{config_path, config_path_in};
use stardive::paths::{path_components, starts_with_path};
use stardive::client::{FileGuiApp, StardiveClient, file_label, file_url, files_url, trim_trailing_slashes};
use stardive::command::{CommandOutput, CommandRunner, run_tool, run_verdict};
use stardive::config::{EnvValues, ServerConfig, join_path, read_bool_value, resolve_cli_config_values};
use stardive::file_index::FileMetadata;
use stardive::modules::{CapabilityContext, ModuleKind, capability, folder_capability, health_report, registry};
use stardive::obscura::{backend_invalid_response, backend_unavailable, forward_request_header, forward_response_header};
use stardive::render::{RenderFormat, RenderSnippetRequest, freeze_args, snippet_extension, validate_render_request};
use stardive::search::{
    ExtractRequest, SearchRequest, ddgs_command, extract_args, search_args, tool_outcome, validate_search_request,
};
use stardive::static_assets::{StaticFileEntry, mime_from_name, names_lt, sort_entries_by_name};
use stardive::tools::{RuntimeTools, detect_tool};

fn key() -> Option<String> {
    Some("secret".to_string())
}

#[test]
fn authorization_rules() {
    assert!(authorize(&None, "/v1/files", None).is_ok());
    assert!(authorize(&key(), "/v1/health", None).is_ok());
    assert!(authorize(&key(), "/up", None).is_ok());
    assert!(authorize(&key(), "/v1/files", Some(Some("Bearer secret"))).is_ok());
    let err = authorize(&key(), "/v1/files", None).expect_err("missing");
    assert_eq!(err.status, 401);
    assert_eq!(err.message, "missing authorization header");
    let err = authorize(&key(), "/v1/files", Some(None)).expect_err("not text");
    assert_eq!(err.message, "invalid authorization header");
    let err = authorize(&key(), "/v1/files", Some(Some("Bearer other"))).expect_err("wrong key");
    assert_eq!(err.message, "invalid api key");
    let err = authorize(&key(), "/v1/obscura/mcp/admin", Some(Some("bearer secret"))).expect_err("case matters");
    assert_eq!(err.message, "invalid api key");
}

fn empty_env() -> EnvValues {
    EnvValues {
        bind_addr: None,
        data_dir: None,
        log_dir: None,
        installers_dir: None,
        eternal_dir: None,
        api_key: None,
        max_upload_bytes: None,
        max_snippet_chars: None,
        vapid_subject: None,
        obscura_mcp_url: None,
        enable_health: None,
        enable_search: None,
        enable_files: None,
        enable_render: None,
        enable_lostandfound: None,
        enable_orbit: None,
        enable_notifications: None,
        enable_installers: None,
        enable_eternal: None,
        enable_obscura: None,
    }
}

#[test]
fn server_config_defaults() {
    let c = ServerConfig::from_values(&empty_env());
    assert_eq!(c.bind_addr, "0.0.0.0:8080");
    assert_eq!(c.data_dir, "data");
    assert_eq!(c.log_dir, "data/logs");
    assert_eq!(c.installers_dir, "installers");
    assert_eq!(c.eternal_dir, "eternal");
    assert_eq!(c.max_upload_bytes, 1_073_741_824);
    assert_eq!(c.max_snippet_chars, 20_000);
    assert!(c.api_key.is_none());
    assert!(c.public_mode());
    assert!(c.modules.health && c.modules.search && c.modules.obscura);
}

#[test]
fn server_config_reads_values() {
    let mut env = empty_env();
    env.data_dir = Some("/srv/stardive/".to_string());
    env.api_key = Some("k".to_string());
    env.max_upload_bytes = Some("2048".to_string());
    env.max_snippet_chars = Some("lots".to_string());
    env.enable_search = Some("OFF".to_string());
    env.enable_render = Some("Yes".to_string());
    let c = ServerConfig::from_values(&env);
    assert_eq!(c.log_dir, "/srv/stardive/logs");
    assert_eq!(c.max_upload_bytes, 2048);
    assert_eq!(c.max_snippet_chars, 20_000);
    assert!(!c.public_mode());
    assert!(!c.modules.search);
    assert!(c.modules.render);
}

#[test]
fn bool_values_and_path_joins() {
    for v in ["1", "true", "TRUE", "yes", "On"] {
        assert!(read_bool_value(&Some(v.to_string()), false));
    }
    for v in ["0", "false", "no", "", "enabled"] {
        assert!(!read_bool_value(&Some(v.to_string()), true));
    }
    assert!(read_bool_value(&None, true));
    assert!(!read_bool_value(&None, false));
    assert_eq!(join_path("data", "logs"), "data/logs");
    assert_eq!(join_path("data/", "logs"), "data/logs");
    assert_eq!(join_path("", "logs"), "logs");
}

#[test]
fn cli_config_precedence() {
    let s = |v: &str| Some(v.to_string());
    let c = resolve_cli_config_values(s("flag"), None, s("env"), s("envkey"), s("file"), s("filekey"));
    assert_eq!(c.base_url, "flag");
    assert_eq!(c.api_key.as_deref(), Some("envkey"));
    let c = resolve_cli_config_values(None, None, None, None, s("file"), s("filekey"));
    assert_eq!(c.base_url, "file");
    assert_eq!(c.api_key.as_deref(), Some("filekey"));
    let c = resolve_cli_config_values(None, s("flagkey"), None, s("envkey"), None, None);
    assert_eq!(c.base_url, "https://api.stardive.space");
    assert_eq!(c.api_key.as_deref(), Some("flagkey"));
}

fn ctx(all_there: bool) -> CapabilityContext {
    CapabilityContext {
        ddgs_available: all_there,
        freeze_available: all_there,
        opencode_available: all_there,
        obscura_mcp_url: "http://127.0.0.1:8787/mcp".to_string(),
        installers_dir: "installers".to_string(),
        installers_exists: all_there,
        eternal_dir: "eternal".to_string(),
        eternal_exists: all_there,
    }
}

#[test]
fn registry_lists_every_module_in_order() {
    let names: Vec<&str> = registry().iter().map(|k| k.name()).collect();
    assert_eq!(
        names,
        vec!["health", "search", "files", "render", "lostandfound", "orbit", "notifications", "installers", "eternal", "obscura"]
    );
}

#[test]
fn module_capabilities() {
    let c = capability(ModuleKind::Search, &ctx(false));
    assert_eq!(c.name, "search");
    assert!(c.enabled && !c.healthy);
    assert_eq!(c.detail.as_deref(), Some("ddgs unavailable"));
    let c = capability(ModuleKind::Orbit, &ctx(true));
    assert!(c.healthy);
    assert_eq!(c.detail.as_deref(), Some("Lua script store ready; opencode available"));
    let c = capability(ModuleKind::LostAndFound, &ctx(false));
    assert!(c.healthy);
    assert_eq!(c.detail.as_deref(), Some("in-memory lost-and-found mock API"));
    let f = folder_capability("installers", "/opt/inst", false);
    assert!(!f.healthy);
    assert_eq!(f.detail.as_deref(), Some("missing directory /opt/inst"));
    let f = folder_capability("eternal", "/opt/e", true);
    assert!(f.healthy);
    assert_eq!(f.detail.as_deref(), Some("serving from /opt/e"));
}

#[test]
fn health_report_marks_disabled_and_degraded() {
    let tools = RuntimeTools {
        ddgs: detect_tool("surely-not-a-real-tool-name"),
        freeze: detect_tool("surely-not-a-real-tool-name"),
        opencode: detect_tool("surely-not-a-real-tool-name"),
    };
    assert!(!tools.ddgs.available && tools.ddgs.path.is_none());
    let mut flags = ServerConfig::from_values(&empty_env()).modules;
    let all_healthy = health_report(&registry(), &flags, &ctx(true), "1.0".to_string(), true, tools.to_public());
    assert_eq!(all_healthy.status, "ok");
    assert_eq!(all_healthy.modules.len(), 10);
    assert_eq!(all_healthy.version, "1.0");
    assert!(all_healthy.public_mode);
    let degraded = health_report(&registry(), &flags, &ctx(false), "1.0".to_string(), false, tools.to_public());
    assert_eq!(degraded.status, "degraded");
    flags.search = false;
    flags.render = false;
    flags.orbit = false;
    flags.installers = false;
    flags.eternal = false;
    let report = health_report(&registry(), &flags, &ctx(false), "1.0".to_string(), false, tools.to_public());
    assert_eq!(report.status, "ok");
    let search = &report.modules[1];
    assert_eq!(search.name, "search");
    assert!(!search.enabled && search.healthy);
    assert_eq!(search.detail.as_deref(), Some("disabled via config"));
}

#[test]
fn client_addresses_and_labels() {
    assert_eq!(trim_trailing_slashes("https://x.test///"), "https://x.test");
    let client = StardiveClient::new("https://x.test/", Some("k".to_string()));
    assert_eq!(client.base_url(), "https://x.test");
    assert_eq!(client.url("/v1/health"), "https://x.test/v1/health");
    assert_eq!(client.auth_header().as_deref(), Some("Bearer k"));
    assert!(StardiveClient::new("https://x.test", None).auth_header().is_none());
    assert_eq!(files_url("https://x.test/"), "https://x.test/v1/files");
    assert_eq!(file_url("https://x.test", "abc"), "https://x.test/v1/files/abc");
    let m = FileMetadata {
        id: "abc123".to_string(),
        original_name: "name.txt".to_string(),
        size: 10,
        mime_type: "text/plain".to_string(),
        sha256: "00".to_string(),
        created_at: 0,
    };
    assert_eq!(file_label(&m), "abc123 (name.txt, 10 bytes)");
    let mut app = FileGuiApp::new("https://x.test".to_string(), None);
    app.refresh_files(&vec![m]);
    assert_eq!(app.files, vec!["abc123 (name.txt, 10 bytes)"]);
}

#[test]
fn static_names_mime_types_and_order() {
    assert_eq!(mime_from_name("install.sh"), "text/x-shellscript; charset=utf-8");
    assert_eq!(mime_from_name("notes.txt"), "text/plain; charset=utf-8");
    assert_eq!(mime_from_name("README.md"), "text/markdown; charset=utf-8");
    assert_eq!(mime_from_name("a.json"), "application/json");
    assert!(names_lt("Zeta", "alpha"));
    assert!(!names_lt("b", "b"));
    assert!(names_lt("ab", "abc"));
    let entry = |n: &str| StaticFileEntry { name: n.to_string(), size: 1, modified_at: None };
    let sorted = sort_entries_by_name(vec![entry("c.sh"), entry("a.sh"), entry("B.sh"), entry("a")]);
    let names: Vec<String> = sorted.into_iter().map(|e| e.name).collect();
    assert_eq!(names, vec!["B.sh", "a", "a.sh", "c.sh"]);
}

#[test]
fn render_request_checks_and_arguments() {
    assert_eq!(RenderFormat::Svg.extension(), "svg");
    assert_eq!(RenderFormat::Png.content_type(), "image/png");
    let req = |code: &str| RenderSnippetRequest { code: code.to_string(), language: None, theme: None, format: RenderFormat::Png };
    let err = validate_render_request(&req("x"), false, 10).expect_err("no freeze");
    assert_eq!(err.status, 503);
    assert_eq!(err.code.as_deref(), Some("freeze_unavailable"));
    let err = validate_render_request(&req(" \n"), true, 10).expect_err("blank");
    assert_eq!(err.message, "code is required");
    let err = validate_render_request(&req("12345678901"), true, 10).expect_err("long");
    assert_eq!(err.message, "code exceeds max length of 10 characters");
    assert!(validate_render_request(&req("1234567890"), true, 10).is_ok());
    assert_eq!(snippet_extension(&Some("C++".to_string())), "c");
    assert_eq!(snippet_extension(&None), "txt");
    let args = freeze_args("/t/snippet.rs", "/t/snippet.png", Some("rust".to_string()), Some("dracula".to_string()));
    assert_eq!(args, vec!["/t/snippet.rs", "-o", "/t/snippet.png", "-l", "rust", "-t", "dracula"]);
    assert_eq!(freeze_args("s", "o", None, None), vec!["s", "-o", "o"]);
}

#[test]
fn search_arguments_and_tool_checks() {
    let long = SearchRequest { query: "q".repeat(513), region: None, safesearch: None, timelimit: None, max_results: None };
    assert_eq!(validate_search_request(&long).expect_err("long").message, "query is too long (max 512 chars)");
    let many = SearchRequest { query: "q".to_string(), region: None, safesearch: None, timelimit: None, max_results: Some(51) };
    assert_eq!(validate_search_request(&many).expect_err("many").message, "max_results must be <= 50");
    let request = SearchRequest {
        query: "rust".to_string(),
        region: None,
        safesearch: Some("off".to_string()),
        timelimit: None,
        max_results: Some(5),
    };
    assert_eq!(search_args("news", &request), vec!["news", "-q", "rust", "-s", "off", "-m", "5"]);
    let err = extract_args(&ExtractRequest { url: " ".to_string(), format: None }).expect_err("blank url");
    assert_eq!(err.message, "url is required");
    let args = extract_args(&ExtractRequest { url: "https://a.test".to_string(), format: Some("md".to_string()) }).expect("ok");
    assert_eq!(args, vec!["extract", "-u", "https://a.test", "-f", "md"]);
    let err = ddgs_command(false, args.clone(), "/tmp/o.json").expect_err("missing tool");
    assert_eq!(err.status, 503);
    assert_eq!(err.message, "ddgs is not available on this server");
    assert_eq!(err.code.as_deref(), Some("ddgs_unavailable"));
    let full = ddgs_command(true, args, "/tmp/o.json").expect("ok");
    assert_eq!(full[full.len() - 2..], ["-o".to_string(), "/tmp/o.json".to_string()]);
    assert!(tool_outcome("ddgs", 0, "").is_ok());
    let err = tool_outcome("ddgs", 4, "rate limited").expect_err("failed");
    assert_eq!(err.status, 502);
    assert_eq!(err.message, "ddgs failed (status 4): rate limited");
}

struct Fixed(Result<CommandOutput, String>);

impl CommandRunner for Fixed {
    fn run(&self, _program: &str, _args: &[String]) -> Result<CommandOutput, String> {
        self.0.clone()
    }
}

#[test]
fn tool_runs_become_answers() {
    let args = vec!["-q".to_string()];
    assert_eq!(run_tool(&Fixed(Ok(CommandOutput { status: 0, stderr: "warn".to_string() })), "ddgs", &args).map(|r| r.is_ok()), Some(true));
    let err = run_tool(&Fixed(Err("no such file".to_string())), "freeze", &args).expect("cuttable").expect_err("no start");
    assert_eq!(err.status, 502);
    assert_eq!(err.message, "freeze invocation failed: no such file");
    let err = run_verdict("freeze", Ok(CommandOutput { status: 2, stderr: "bad theme".to_string() })).expect_err("failed");
    assert_eq!(err.message, "freeze failed (status 2): bad theme");
    let stderr = format!("{}ü", "x".repeat(299));
    assert!(run_tool(&Fixed(Ok(CommandOutput { status: 1, stderr })), "ddgs", &args).is_none());
}

#[test]
fn obscura_header_rules_and_errors() {
    assert!(!forward_request_header("host"));
    assert!(forward_request_header("content-length"));
    assert!(!forward_response_header("content-length"));
    assert!(!forward_request_header("upgrade"));
    assert!(forward_request_header("mcp-session-id"));
    assert!(forward_response_header("mcp-session-id"));
    assert!(!forward_response_header("transfer-encoding"));
    let e = backend_unavailable("connection refused");
    assert_eq!(e.status, 503);
    assert_eq!(e.message, "obscura MCP backend unavailable: connection refused");
    assert_eq!(e.code.as_deref(), Some("obscura_unavailable"));
    let e = backend_invalid_response("bad header");
    assert_eq!(e.status, 502);
    assert_eq!(e.message, "invalid response from obscura MCP backend: bad header");
    assert_eq!(e.code.as_deref(), Some("obscura_invalid_response"));
}

#[test]
fn detected_tools_have_a_path_exactly_when_available() {
    let tools = RuntimeTools::detect();
    assert_eq!(tools.ddgs.available, tools.ddgs.path.is_some());
    assert_eq!(tools.freeze.available, tools.freeze.path.is_some());
    assert_eq!(tools.opencode.available, tools.opencode.path.is_some());
    let sh = detect_tool("sh");
    assert!(sh.available);
    assert!(sh.path.expect("path").ends_with("sh"));
    let public = tools.to_public();
    assert_eq!(public.ddgs.available, tools.ddgs.available);
    assert_eq!(public.freeze.path, tools.freeze.path);
}

#[test]
fn path_components_follow_std_rules() {
    let comps = |p: &str| -> Vec<String> { path_components(p).into_iter().map(|c| c.into_iter().collect()).collect() };
    assert_eq!(comps("/srv//data/./files/"), vec!["/", "srv", "data", "files"]);
    assert_eq!(comps("./a/."), vec![".", "a"]);
    assert_eq!(comps("a/../b"), vec!["a", "..", "b"]);
    assert!(comps("").is_empty());
    for (path, base) in [("/srv/data/x.sh", "/srv/data"), ("/srv/data", "/srv/data/"), ("/a/./b", "/a/b"), ("rel/x", "rel")] {
        assert_eq!(starts_with_path(path, base), std::path::Path::new(path).starts_with(base), "{path} under {base}");
        assert!(starts_with_path(path, base));
    }
    for (path, base) in [("/srv/database", "/srv/data"), ("/srv", "/srv/data"), ("srv/data", "/srv"), ("./a", "a")] {
        assert_eq!(starts_with_path(path, base), std::path::Path::new(path).starts_with(base), "{path} under {base}");
        assert!(!starts_with_path(path, base));
    }
    let err = stardive::static_assets::check_within_root("/srv/data", "/srv/other/x").expect_err("outside");
    assert_eq!(err.status, 400);
    assert_eq!(err.message, "invalid file path");
    assert!(stardive::static_assets::check_within_root("/srv/data", "/srv/data/x").is_ok());
}

#[test]
fn cli_config_file_location() {
    assert_eq!(config_path_in(Some("/home/u/.config".to_string())), "/home/u/.config/stardive/config.toml");
    assert_eq!(config_path_in(None), "./stardive/config.toml");
    assert!(config_path().ends_with("stardive/config.toml"));
}

#[test]
fn trimming_matches_str_trim() {
    for s in ["  a b \n", "", "\t\t", "x", " \u{3000}wide\u{3000} "] {
        assert_eq!(stardive::text::trim(s), s.trim());
        assert_eq!(stardive::text::trimmed_char_count(s), s.trim().chars().count());
    }
}

#[test]
fn only_the_listed_paths_are_public() {
    for p in ["/up", "/health", "/v1/health", "/obscura/mcp", "/v1/obscura/mcp"] {
        assert!(authorize(&key(), p, None).is_ok(), "{p}");
    }
    for p in ["/lostandfound/health", "/v1/lostandfound/health", "/health/x", "/v1/healthz"] {
        let err = authorize(&key(), p, None).expect_err(p);
        assert_eq!(err.message, "missing authorization header");
    }
}

#[test]
fn successful_runs_never_need_their_error_output_cut() {
    let args = vec!["-q".to_string()];
    let stderr = format!("{}ü", "x".repeat(299));
    let ok = Fixed(Ok(CommandOutput { status: 0, stderr: stderr.clone() }));
    assert!(matches!(run_tool(&ok, "freeze", &args), Some(Ok(()))));
    assert!(run_verdict("ddgs", Ok(CommandOutput { status: 0, stderr: stderr.clone() })).is_ok());
    assert!(tool_outcome("ddgs", 0, &stderr).is_ok());
}

#[test]
fn tool_lookups_name_the_tool() {
    let tools = RuntimeTools::detect();
    for (name, status) in [("ddgs", &tools.ddgs), ("freeze", &tools.freeze), ("opencode", &tools.opencode)] {
        if let Some(path) = &status.path {
            assert!(path.to_ascii_lowercase().contains(name));
        }
    }
    let sh = detect_tool("sh");
    assert!(sh.path.expect("sh is installed").contains("sh"));
}

#[test]
fn label_first_word_is_the_id() {
    let m = FileMetadata {
        id: "f00d".to_string(),
        original_name: "my file.txt".to_string(),
        size: 3,
        mime_type: "text/plain".to_string(),
        sha256: "00".to_string(),
        created_at: 0,
    };
    assert_eq!(stardive::client::label_id(&file_label(&m)), "f00d");
}
