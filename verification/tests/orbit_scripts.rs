use stardive::command::{CommandOutput, CommandRunner};
use stardive::orbit::{
    OrbitIndex, OrbitScriptMetadata, OrbitScriptSource, OrbitScriptStatus, OrbitVibecodeRequest,
    check_downloadable, generated_script_digest, inspiration_copies, new_uploaded_script, opencode_args,
    opencode_message, opencode_outcome, opencode_project_config, opencode_run_verdict, orbit_instructions,
    run_opencode, sanitize_lua_name, tool_failed, validate_lua_name, validate_vibecode_request, vibecode_name,
};

fn script(id: &str, name: &str, t: i128) -> OrbitScriptMetadata {
    new_uploaded_script(id.to_string(), name.to_string(), 10, "ab".to_string(), t)
}

fn ids(index: &OrbitIndex) -> Vec<String> {
    index.list().into_iter().map(|s| s.id).collect()
}

#[test]
fn lua_names_are_sanitized_to_their_last_component() {
    assert_eq!(sanitize_lua_name("games/snake.lua"), "snake.lua");
    assert_eq!(sanitize_lua_name("a\\b\"c.lua"), "abc.lua");
    assert_eq!(sanitize_lua_name("dir/"), "dir");
    assert_eq!(sanitize_lua_name(""), "main.lua");
    assert_eq!(sanitize_lua_name(".."), "main.lua");
    assert_eq!(sanitize_lua_name("x/.."), "main.lua");
}

#[test]
fn lua_name_validation_messages() {
    assert!(validate_lua_name("Paint.LUA").is_ok());
    let err = validate_lua_name("   ").expect_err("blank");
    assert_eq!(err.status, 400);
    assert_eq!(err.message, "script name is required");
    let err = validate_lua_name("paint.js").expect_err("not lua");
    assert_eq!(err.status, 400);
    assert_eq!(err.message, "script name must end with .lua");
}

#[test]
fn uploaded_script_record() {
    let m = script("abc", "main.lua", 5);
    assert_eq!(m.status, OrbitScriptStatus::Uploaded);
    assert_eq!(m.source, OrbitScriptSource::Uploaded);
    assert_eq!(m.created_at, 5);
    assert_eq!(m.updated_at, 5);
    assert!(m.parent_id.is_none() && m.prompt.is_none() && m.error.is_none());
}

#[test]
fn index_keeps_newest_first_and_replaces_same_id() {
    let mut index = OrbitIndex::empty();
    index.insert(script("a", "a.lua", 1));
    index.insert(script("b", "b.lua", 3));
    index.insert(script("c", "c.lua", 2));
    assert_eq!(ids(&index), vec!["b", "c", "a"]);
    index.insert(script("a", "renamed.lua", 4));
    assert_eq!(ids(&index), vec!["a", "b", "c"]);
    assert_eq!(index.get("a").expect("a").name, "renamed.lua");
    assert_eq!(index.list().len(), 3);
}

#[test]
fn lookup_by_id_then_by_name() {
    let mut index = OrbitIndex::empty();
    index.insert(script("main.lua", "other.lua", 1));
    index.insert(script("x1", "main.lua", 2));
    assert_eq!(index.get_by_id_or_name("main.lua").expect("by id").id, "main.lua");
    assert_eq!(index.get_by_id_or_name("other.lua").expect("by name").id, "main.lua");
    assert_eq!(index.get_by_id_or_name("x1").expect("by id").name, "main.lua");
    assert!(index.get_by_id_or_name("missing").is_none());
    assert!(index.get("other.lua").is_none());
}

#[test]
fn job_marks_move_a_script_through_its_states() {
    let mut index = OrbitIndex::empty();
    index.insert(script("job", "orbit-job.lua", 1));
    index.insert(script("old", "old.lua", 2));
    index.mark_generating("job", 3).expect("known");
    assert_eq!(index.get("job").expect("job").status, OrbitScriptStatus::Generating);
    assert_eq!(ids(&index), vec!["job", "old"]);
    index.mark_ready("job", 42, "cafe".to_string(), 4).expect("known");
    let ready = index.get("job").expect("job");
    assert_eq!(ready.status, OrbitScriptStatus::Ready);
    assert_eq!(ready.size, 42);
    assert_eq!(ready.sha256, "cafe");
    assert_eq!(ready.updated_at, 4);
    assert!(ready.error.is_none());
    index.mark_failed("old", "boom".to_string(), 5).expect("known");
    let failed = index.get("old").expect("old");
    assert_eq!(failed.status, OrbitScriptStatus::Failed);
    assert_eq!(failed.error.as_deref(), Some("boom"));
    assert_eq!(ids(&index), vec!["old", "job"]);
    let err = index.mark_generating("nope", 6).expect_err("unknown");
    assert_eq!(err, "orbit script nope not found");
}

#[test]
fn only_uploaded_or_ready_scripts_download() {
    assert!(check_downloadable(OrbitScriptStatus::Uploaded).is_ok());
    assert!(check_downloadable(OrbitScriptStatus::Ready).is_ok());
    for s in [OrbitScriptStatus::Pending, OrbitScriptStatus::Generating, OrbitScriptStatus::Failed] {
        let err = check_downloadable(s).expect_err("not ready");
        assert_eq!(err.status, 409);
        assert_eq!(err.message, "orbit script content is not ready");
    }
}

#[test]
fn vibecode_request_checks() {
    let err = validate_vibecode_request("  ", 10, true).expect_err("blank");
    assert_eq!(err.status, 400);
    assert_eq!(err.message, "prompt is required");
    let err = validate_vibecode_request("  abcdefghijk  ", 10, true).expect_err("long");
    assert_eq!(err.status, 400);
    assert_eq!(err.message, "prompt is too long (max 10 chars)");
    assert!(validate_vibecode_request("  abcdefghij  ", 10, true).is_ok());
    let err = validate_vibecode_request("draw", 10, false).expect_err("no tool");
    assert_eq!(err.status, 503);
    assert_eq!(err.message, "opencode is not available on this server");
    assert_eq!(err.code.as_deref(), Some("opencode_unavailable"));
}

#[test]
fn vibecode_names() {
    let parent = Some(script("p", "parent.lua", 1));
    assert_eq!(vibecode_name("id1", &Some("dir/paint.lua".to_string()), &parent), "paint.lua");
    assert_eq!(vibecode_name("id1", &None, &parent), "parent.lua");
    assert_eq!(vibecode_name("id1", &None, &None), "orbit-id1.lua");
}

#[test]
fn start_vibecode_files_a_pending_job() {
    let mut index = OrbitIndex::empty();
    index.insert(script("p", "parent.lua", 1));
    let request = OrbitVibecodeRequest { prompt: "make it blue".to_string(), name: None, script_id: Some("p".to_string()) };
    let (job, parent) = index.start_vibecode_at(request, "j".to_string(), 100, true, 9).expect("accepted");
    assert_eq!(job.id, "j");
    assert_eq!(job.name, "parent.lua");
    assert_eq!(job.status, OrbitScriptStatus::Pending);
    assert_eq!(job.source, OrbitScriptSource::Refactor);
    assert_eq!(job.parent_id.as_deref(), Some("p"));
    assert_eq!(job.prompt.as_deref(), Some("make it blue"));
    assert_eq!(job.size, 0);
    assert_eq!(job.sha256, "");
    assert_eq!(parent.expect("parent").id, "p");
    assert_eq!(ids(&index), vec!["j", "p"]);

    let request = OrbitVibecodeRequest { prompt: "x".to_string(), name: None, script_id: Some("q".to_string()) };
    let err = index.start_vibecode_at(request, "k".to_string(), 100, true, 10).expect_err("no parent");
    assert_eq!(err.status, 404);
    assert_eq!(err.message, "source orbit script not found");

    let request = OrbitVibecodeRequest { prompt: "x".to_string(), name: Some("x.txt".to_string()), script_id: None };
    let err = index.start_vibecode_at(request, "k".to_string(), 100, true, 10).expect_err("bad name");
    assert_eq!(err.status, 400);
    assert_eq!(err.message, "script name must end with .lua");
    assert_eq!(ids(&index), vec!["j", "p"]);

    let request = OrbitVibecodeRequest { prompt: "new".to_string(), name: None, script_id: None };
    let (job, parent) = index.start_vibecode(request, 100, true).expect("accepted");
    assert!(parent.is_none());
    assert_eq!(job.source, OrbitScriptSource::Generated);
    assert_eq!(job.id.len(), 32);
    assert_eq!(job.name, format!("orbit-{}.lua", job.id));
    assert_eq!(index.list().len(), 3);
}

#[test]
fn opencode_message_and_arguments() {
    let new = opencode_message("a cat", false);
    assert_eq!(
        new,
        format!(
            "Use the orbit-love2d skill.\n\n{}\n\nUser prompt:\na cat\n\nWrite the final Lua script to output.lua. You may read Lua examples from inspiration/*.lua, but only output.lua may be changed.\n\nCreate a new complete Love2D app script.",
            orbit_instructions()
        )
    );
    let refactor = opencode_message("a cat", true);
    assert!(refactor.ends_with("\n\nExisting script is in input.lua. Refactor it according to the prompt."));
    let args = opencode_args("/tmp/job", "j1", "msg".to_string());
    assert_eq!(args, vec!["--pure", "--dir", "/tmp/job", "--title", "Orbit Lua j1", "msg"]);
}

#[test]
fn tool_failure_text_and_truncation() {
    assert_eq!(tool_failed("opencode", 2, "boom"), "opencode failed (status 2): boom");
    assert_eq!(tool_failed("ddgs", -1, ""), "ddgs failed (status -1): ");
    let long = "a".repeat(310);
    let msg = tool_failed("freeze", 1, &long);
    assert_eq!(msg, format!("freeze failed (status 1): {}...", "a".repeat(300)));
    let exact = "b".repeat(300);
    assert_eq!(tool_failed("freeze", 1, &exact), format!("freeze failed (status 1): {}", exact));
    assert!(opencode_outcome(0, "ignored").is_ok());
    assert_eq!(opencode_outcome(3, "bad").expect_err("failed"), "opencode failed (status 3): bad");
}

#[test]
fn generated_script_digest_hashes_content() {
    let (size, sha) = generated_script_digest(b"abc").expect("non-empty");
    assert_eq!(size, 3);
    assert_eq!(sha, "ba7816bf8f01cfea414140de5dae2223b00361a396177a9cb410ff61f20015ad");
    assert_eq!(generated_script_digest(b"").expect_err("empty"), "opencode created an empty output.lua");
}

#[test]
fn inspiration_takes_other_scripts_with_content() {
    let mut a = script("a", "dir/a.lua", 1);
    a.status = OrbitScriptStatus::Ready;
    let mut b = script("b", "b.lua", 2);
    b.status = OrbitScriptStatus::Pending;
    let c = script("c", "c.lua", 3);
    let d = script("d", "d.lua", 4);
    let copies = inspiration_copies(&vec![a, b, c, d], "d");
    assert_eq!(
        copies,
        vec![("a".to_string(), "a_a.lua".to_string()), ("c".to_string(), "c_c.lua".to_string())]
    );
}

#[test]
fn project_config_is_json_that_denies_by_default() {
    let v: serde_json::Value = serde_json::from_str(opencode_project_config()).expect("valid json");
    assert_eq!(v["$schema"], "https://opencode.ai/config.json");
    assert_eq!(v["permission"]["*"], "deny");
    assert_eq!(v["permission"]["edit"]["output.lua"], "allow");
}

struct FakeRunner(Result<CommandOutput, String>);

impl CommandRunner for FakeRunner {
    fn run(&self, program: &str, args: &[String]) -> Result<CommandOutput, String> {
        assert_eq!(program, "opencode");
        assert_eq!(args[0], "--pure");
        self.0.clone()
    }
}

#[test]
fn opencode_run_outcomes() {
    let args = opencode_args("/tmp/j", "j", "m".to_string());
    let ok = FakeRunner(Ok(CommandOutput { status: 0, stderr: String::new() }));
    assert_eq!(run_opencode(&ok, &args), Some(Ok(())));
    let failed = FakeRunner(Ok(CommandOutput { status: 1, stderr: "nope".to_string() }));
    assert_eq!(run_opencode(&failed, &args), Some(Err("opencode failed (status 1): nope".to_string())));
    let missing = FakeRunner(Err("failed to start command: opencode".to_string()));
    assert_eq!(run_opencode(&missing, &args), Some(Err("failed to start command: opencode".to_string())));
    let mid_char = format!("{}é", "a".repeat(299));
    let uncuttable = FakeRunner(Ok(CommandOutput { status: 1, stderr: mid_char }));
    assert_eq!(run_opencode(&uncuttable, &args), None);
    assert_eq!(
        opencode_run_verdict(Err("cannot run".to_string())),
        Err("cannot run".to_string())
    );
}

fn object(entries: &[(&str, serde_json::Value)]) -> serde_json::Value {
    let mut map = serde_json::Map::new();
    for (k, v) in entries {
        map.insert(k.to_string(), v.clone());
    }
    serde_json::Value::Object(map)
}

fn s(v: &str) -> serde_json::Value {
    serde_json::Value::String(v.to_string())
}

#[test]
fn project_config_is_the_pretty_encoding_of_the_permissions() {
    let config = object(&[
        ("$schema", s("https://opencode.ai/config.json")),
        (
            "permission",
            object(&[
                ("*", s("deny")),
                (
                    "read",
                    object(&[
                        ("*", s("deny")),
                        ("prompt.txt", s("allow")),
                        ("input.lua", s("allow")),
                        ("output.lua", s("allow")),
                        ("inspiration/*.lua", s("allow")),
                        (".opencode/skill/orbit-love2d/SKILL.md", s("allow")),
                    ]),
                ),
                ("edit", object(&[("*", s("deny")), ("output.lua", s("allow"))])),
                (
                    "list",
                    object(&[
                        ("*", s("deny")),
                        (".", s("allow")),
                        ("inspiration", s("allow")),
                        (".opencode/skill/orbit-love2d", s("allow")),
                    ]),
                ),
                ("glob", object(&[("*", s("deny")), ("*.lua", s("allow")), ("inspiration/*.lua", s("allow"))])),
                ("grep", object(&[("*", s("allow"))])),
                (
                    "bash",
                    object(&[
                        ("*", s("deny")),
                        ("stylua", s("allow")),
                        ("stylua *", s("allow")),
                        ("selene", s("allow")),
                        ("selene *", s("allow")),
                    ]),
                ),
                ("skill", object(&[("*", s("deny")), ("orbit-love2d", s("allow"))])),
                ("task", s("deny")),
                ("webfetch", s("deny")),
                ("websearch", s("deny")),
                ("external_directory", s("deny")),
                ("lsp", s("deny")),
            ]),
        ),
    ]);
    assert_eq!(opencode_project_config(), serde_json::to_string_pretty(&config).expect("encodes"));
}

#[test]
fn successful_opencode_run_with_uncuttable_output_goes_on() {
    let args = opencode_args("/tmp/j", "j", "m".to_string());
    let stderr = format!("{}é", "a".repeat(299));
    let ok = FakeRunner(Ok(CommandOutput { status: 0, stderr: stderr.clone() }));
    assert_eq!(run_opencode(&ok, &args), Some(Ok(())));
    assert!(opencode_outcome(0, &stderr).is_ok());
}
