//! The server's modules: their names, the flag that turns each on, what each
//! reports of itself, and the health report built from them.

use vstd::prelude::*;
use crate::config::ModuleFlags;
use crate::text::{concat2, concat3, owned};
use crate::tools::ToolsCapability;

verus! {

/// What a module reports of itself on the health endpoint.
#[derive(Debug)]
pub struct ModuleCapability {
    pub name: String,
    pub enabled: bool,
    pub healthy: bool,
    pub detail: Option<String>,
}

/// The modules of the server, in the order they are mounted and reported.
#[derive(Debug, Clone, Copy, PartialEq, Eq, Structural)]
pub enum ModuleKind {
    Health,
    Search,
    Files,
    Render,
    LostAndFound,
    Orbit,
    Notifications,
    Installers,
    Eternal,
    Obscura,
}

/// A module's name.
pub open spec fn module_name(k: ModuleKind) -> Seq<char> {
    match k {
        ModuleKind::Health => "health"@,
        ModuleKind::Search => "search"@,
        ModuleKind::Files => "files"@,
        ModuleKind::Render => "render"@,
        ModuleKind::LostAndFound => "lostandfound"@,
        ModuleKind::Orbit => "orbit"@,
        ModuleKind::Notifications => "notifications"@,
        ModuleKind::Installers => "installers"@,
        ModuleKind::Eternal => "eternal"@,
        ModuleKind::Obscura => "obscura"@,
    }
}

/// Whether the configuration turns a module on.
pub open spec fn module_enabled(k: ModuleKind, f: ModuleFlags) -> bool {
    match k {
        ModuleKind::Health => f.health,
        ModuleKind::Search => f.search,
        ModuleKind::Files => f.files,
        ModuleKind::Render => f.render,
        ModuleKind::LostAndFound => f.lostandfound,
        ModuleKind::Orbit => f.orbit,
        ModuleKind::Notifications => f.notifications,
        ModuleKind::Installers => f.installers,
        ModuleKind::Eternal => f.eternal,
        ModuleKind::Obscura => f.obscura,
    }
}

impl ModuleKind {
    /// The module's name.
    pub fn name(&self) -> (r: &'static str)
        ensures
            r@ == module_name(*self),
    {
        match self {
            ModuleKind::Health => "health",
            ModuleKind::Search => "search",
            ModuleKind::Files => "files",
            ModuleKind::Render => "render",
            ModuleKind::LostAndFound => "lostandfound",
            ModuleKind::Orbit => "orbit",
            ModuleKind::Notifications => "notifications",
            ModuleKind::Installers => "installers",
            ModuleKind::Eternal => "eternal",
            ModuleKind::Obscura => "obscura",
        }
    }

    /// Whether the configuration turns the module on.
    pub fn enabled(&self, flags: &ModuleFlags) -> (r: bool)
        ensures
            r == module_enabled(*self, *flags),
    {
        match self {
            ModuleKind::Health => flags.health,
            ModuleKind::Search => flags.search,
            ModuleKind::Files => flags.files,
            ModuleKind::Render => flags.render,
            ModuleKind::LostAndFound => flags.lostandfound,
            ModuleKind::Orbit => flags.orbit,
            ModuleKind::Notifications => flags.notifications,
            ModuleKind::Installers => flags.installers,
            ModuleKind::Eternal => flags.eternal,
            ModuleKind::Obscura => flags.obscura,
        }
    }
}

/// The modules in mounting order.
pub open spec fn registry_spec() -> Seq<ModuleKind> {
    seq![
        ModuleKind::Health,
        ModuleKind::Search,
        ModuleKind::Files,
        ModuleKind::Render,
        ModuleKind::LostAndFound,
        ModuleKind::Orbit,
        ModuleKind::Notifications,
        ModuleKind::Installers,
        ModuleKind::Eternal,
        ModuleKind::Obscura,
    ]
}

/// Every module of the server, in mounting order.
pub fn registry() -> (r: Vec<ModuleKind>)
    ensures
        r@ == registry_spec(),
{
    let r = vec![
        ModuleKind::Health,
        ModuleKind::Search,
        ModuleKind::Files,
        ModuleKind::Render,
        ModuleKind::LostAndFound,
        ModuleKind::Orbit,
        ModuleKind::Notifications,
        ModuleKind::Installers,
        ModuleKind::Eternal,
        ModuleKind::Obscura,
    ];
    assert(r@ =~= registry_spec());
    r
}

/// The facts of this machine and configuration that modules report on.
#[derive(Debug)]
pub struct CapabilityContext {
    pub ddgs_available: bool,
    pub freeze_available: bool,
    pub opencode_available: bool,
    pub obscura_mcp_url: String,
    pub installers_dir: String,
    pub installers_exists: bool,
    pub eternal_dir: String,
    pub eternal_exists: bool,
}

/// The report of a static folder module: healthy when its folder exists.
pub open spec fn folder_detail(dir: Seq<char>, exists: bool) -> Seq<char> {
    if exists {
        "serving from "@ + dir
    } else {
        "missing directory "@ + dir
    }
}

/// Whether an enabled module reports itself healthy.
pub open spec fn module_healthy(k: ModuleKind, c: CapabilityContext) -> bool {
    match k {
        ModuleKind::Search => c.ddgs_available,
        ModuleKind::Render => c.freeze_available,
        ModuleKind::Orbit => c.opencode_available,
        ModuleKind::Installers => c.installers_exists,
        ModuleKind::Eternal => c.eternal_exists,
        _ => true,
    }
}

/// The detail an enabled module reports.
pub open spec fn module_detail(k: ModuleKind, c: CapabilityContext) -> Seq<char> {
    match k {
        ModuleKind::Health => "core health module"@,
        ModuleKind::Search => if c.ddgs_available { "ddgs available"@ } else { "ddgs unavailable"@ },
        ModuleKind::Files => "local file store ready"@,
        ModuleKind::Render => if c.freeze_available { "freeze available"@ } else { "freeze unavailable"@ },
        ModuleKind::LostAndFound => "in-memory lost-and-found mock API"@,
        ModuleKind::Orbit => if c.opencode_available {
            "Lua script store ready; opencode available"@
        } else {
            "Lua script store ready; opencode unavailable for vibecoding"@
        },
        ModuleKind::Notifications => "persistent Web Push delivery ready"@,
        ModuleKind::Installers => folder_detail(c.installers_dir@, c.installers_exists),
        ModuleKind::Eternal => folder_detail(c.eternal_dir@, c.eternal_exists),
        ModuleKind::Obscura => "HTTP MCP proxy configured for "@ + c.obscura_mcp_url@
            + "; backend availability is checked per request"@,
    }
}

/// The report of a static folder module.
pub fn folder_capability(name: &str, dir: &str, exists: bool) -> (r: ModuleCapability)
    ensures
        r.name@ == name@,
        r.enabled,
        r.healthy == exists,
        r.detail matches Some(d) && d@ == folder_detail(dir@, exists),
{
    let detail = if exists {
        concat2("serving from ", dir)
    } else {
        concat2("missing directory ", dir)
    };
    ModuleCapability { name: owned(name), enabled: true, healthy: exists, detail: Some(detail) }
}

fn fixed(name: &str, healthy: bool, detail: &str) -> (r: ModuleCapability)
    ensures
        r.name@ == name@,
        r.enabled,
        r.healthy == healthy,
        r.detail matches Some(d) && d@ == detail@,
{
    ModuleCapability { name: owned(name), enabled: true, healthy, detail: Some(owned(detail)) }
}

/// What an enabled module reports of itself.
pub fn capability(kind: ModuleKind, ctx: &CapabilityContext) -> (r: ModuleCapability)
    ensures
        r.name@ == module_name(kind),
        r.enabled,
        r.healthy == module_healthy(kind, *ctx),
        r.detail matches Some(d) && d@ == module_detail(kind, *ctx),
{
    match kind {
        ModuleKind::Health => fixed("health", true, "core health module"),
        ModuleKind::Search => fixed(
            "search",
            ctx.ddgs_available,
            if ctx.ddgs_available { "ddgs available" } else { "ddgs unavailable" },
        ),
        ModuleKind::Files => fixed("files", true, "local file store ready"),
        ModuleKind::Render => fixed(
            "render",
            ctx.freeze_available,
            if ctx.freeze_available { "freeze available" } else { "freeze unavailable" },
        ),
        ModuleKind::LostAndFound => fixed("lostandfound", true, "in-memory lost-and-found mock API"),
        ModuleKind::Orbit => fixed(
            "orbit",
            ctx.opencode_available,
            if ctx.opencode_available {
                "Lua script store ready; opencode available"
            } else {
                "Lua script store ready; opencode unavailable for vibecoding"
            },
        ),
        ModuleKind::Notifications => fixed("notifications", true, "persistent Web Push delivery ready"),
        ModuleKind::Installers => folder_capability("installers", ctx.installers_dir.as_str(), ctx.installers_exists),
        ModuleKind::Eternal => folder_capability("eternal", ctx.eternal_dir.as_str(), ctx.eternal_exists),
        ModuleKind::Obscura => {
            let detail = concat3(
                "HTTP MCP proxy configured for ",
                ctx.obscura_mcp_url.as_str(),
                "; backend availability is checked per request",
            );
            ModuleCapability { name: owned("obscura"), enabled: true, healthy: true, detail: Some(detail) }
        },
    }
}

/// The answer of the health endpoint.
#[derive(Debug)]
pub struct HealthResponse {
    pub status: String,
    pub version: String,
    pub public_mode: bool,
    pub modules: Vec<ModuleCapability>,
    pub tools: ToolsCapability,
}

/// How a module appears in the health report: its own report when enabled,
/// else disabled, healthy, "disabled via config".
pub open spec fn report_entry_ok(m: ModuleCapability, k: ModuleKind, f: ModuleFlags, c: CapabilityContext) -> bool {
    &&& m.name@ == module_name(k)
    &&& m.enabled == module_enabled(k, f)
    &&& if module_enabled(k, f) {
        m.healthy == module_healthy(k, c) && (m.detail matches Some(d) && d@ == module_detail(k, c))
    } else {
        m.healthy && (m.detail matches Some(d) && d@ == "disabled via config"@)
    }
}

/// The overall status: `degraded` when some enabled module is unhealthy, else `ok`.
pub open spec fn overall_status(kinds: Seq<ModuleKind>, f: ModuleFlags, c: CapabilityContext) -> Seq<char> {
    if exists|i: int| 0 <= i < kinds.len() && module_enabled(#[trigger] kinds[i], f) && !module_healthy(kinds[i], c) {
        "degraded"@
    } else {
        "ok"@
    }
}

/// Builds the health report for the given modules.
pub fn health_report(
    kinds: &Vec<ModuleKind>,
    flags: &ModuleFlags,
    ctx: &CapabilityContext,
    version: String,
    public_mode: bool,
    tools: ToolsCapability,
) -> (r: HealthResponse)
    ensures
        r.modules@.len() == kinds@.len(),
        forall|i: int| 0 <= i < kinds@.len() ==> report_entry_ok(#[trigger] r.modules@[i], kinds@[i], *flags, *ctx),
        r.status@ == overall_status(kinds@, *flags, *ctx),
        r.version == version,
        r.public_mode == public_mode,
        r.tools == tools,
{
    let mut modules: Vec<ModuleCapability> = Vec::new();
    let mut degraded = false;
    let mut i: usize = 0;
    while i < kinds.len()
        invariant
            i <= kinds@.len(),
            modules@.len() == i,
            forall|j: int| 0 <= j < i ==> report_entry_ok(#[trigger] modules@[j], kinds@[j], *flags, *ctx),
            degraded == exists|j: int| 0 <= j < i && module_enabled(#[trigger] kinds@[j], *flags) && !module_healthy(kinds@[j], *ctx),
        decreases kinds.len() - i,
    {
        let k = kinds[i];
        let m = if k.enabled(flags) {
            capability(k, ctx)
        } else {
            ModuleCapability {
                name: owned(k.name()),
                enabled: false,
                healthy: true,
                detail: Some(owned("disabled via config")),
            }
        };
        if m.enabled && !m.healthy {
            degraded = true;
        }
        modules.push(m);
        i = i + 1;
    }
    let status = if degraded { owned("degraded") } else { owned("ok") };
    HealthResponse { status, version, public_mode, modules, tools }
}

/// A module whose tool or folder is missing reports itself unhealthy (search
/// without `ddgs`, render without `freeze`, Orbit without `opencode`, a static
/// folder that does not exist), and an enabled one of them makes the whole
/// report degraded; with every tool and folder present the report is ok.
pub proof fn law_missing_tool_degrades_health(f: ModuleFlags, c: CapabilityContext)
    ensures
        module_healthy(ModuleKind::Search, c) == c.ddgs_available,
        module_healthy(ModuleKind::Render, c) == c.freeze_available,
        module_healthy(ModuleKind::Orbit, c) == c.opencode_available,
        module_healthy(ModuleKind::Installers, c) == c.installers_exists,
        module_healthy(ModuleKind::Eternal, c) == c.eternal_exists,
        (f.search && !c.ddgs_available) || (f.render && !c.freeze_available) || (f.orbit && !c.opencode_available)
            || (f.installers && !c.installers_exists) || (f.eternal && !c.eternal_exists) ==> overall_status(
            registry_spec(),
            f,
            c,
        ) == "degraded"@,
        c.ddgs_available && c.freeze_available && c.opencode_available && c.installers_exists && c.eternal_exists
            ==> overall_status(registry_spec(), f, c) == "ok"@,
{
    let r = registry_spec();
    assert(r[1] == ModuleKind::Search && r[3] == ModuleKind::Render && r[5] == ModuleKind::Orbit);
    assert(r[7] == ModuleKind::Installers && r[8] == ModuleKind::Eternal);
    if c.ddgs_available && c.freeze_available && c.opencode_available && c.installers_exists && c.eternal_exists {
        assert forall|i: int| 0 <= i < r.len() implies module_healthy(#[trigger] r[i], c) by {}
    }
}

} // verus!
