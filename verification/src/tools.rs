//! The command-line tools some modules run, and whether this machine has them.

use vstd::prelude::*;
use crate::outside::{bare_program_name, which_path};
use crate::text::{lower_all, occurs_in};

verus! {

/// Whether a tool was found, and where.
#[derive(Debug)]
pub struct ToolStatus {
    pub available: bool,
    pub path: Option<String>,
}

impl Clone for ToolStatus {
    fn clone(&self) -> (r: Self)
        ensures
            r == *self,
    {
        ToolStatus { available: self.available, path: crate::orbit::clone_opt_string(&self.path) }
    }
}

/// The tools the server uses: `ddgs` for search, `freeze` for rendering,
/// `opencode` for generating Orbit scripts.
#[derive(Debug)]
pub struct RuntimeTools {
    pub ddgs: ToolStatus,
    pub freeze: ToolStatus,
    pub opencode: ToolStatus,
}

impl Clone for RuntimeTools {
    fn clone(&self) -> (r: Self)
        ensures
            r == *self,
    {
        RuntimeTools { ddgs: self.ddgs.clone(), freeze: self.freeze.clone(), opencode: self.opencode.clone() }
    }
}

/// A tool's status as the health endpoint reports it.
#[derive(Debug)]
pub struct ToolCapability {
    pub available: bool,
    pub path: Option<String>,
}

/// The tools' status as the health endpoint reports it.
#[derive(Debug)]
pub struct ToolsCapability {
    pub ddgs: ToolCapability,
    pub freeze: ToolCapability,
    pub opencode: ToolCapability,
}

/// What a lookup of the tool `name` may report: available exactly when a
/// path was found, and a path that names the tool (ignoring ASCII case).
pub open spec fn tool_found_as(name: Seq<char>, t: ToolStatus) -> bool {
    &&& t.available == t.path is Some
    &&& (t.path matches Some(p) ==> occurs_in(lower_all(name), lower_all(p@)))
}

/// Looks a tool up on the search path: available exactly when a path was
/// found; for a bare program name, a path that names it. Whether it is found
/// depends on the machine.
pub fn detect_tool(name: &str) -> (r: ToolStatus)
    ensures
        r.available == r.path is Some,
        bare_program_name(name@) ==> tool_found_as(name@, r),
{
    match which_path(name) {
        Some(path) => ToolStatus { available: true, path: Some(path) },
        None => ToolStatus { available: false, path: None },
    }
}

fn tool_capability(t: &ToolStatus) -> (r: ToolCapability)
    ensures
        r.available == t.available,
        r.path == t.path,
{
    ToolCapability { available: t.available, path: crate::orbit::clone_opt_string(&t.path) }
}

impl RuntimeTools {
    /// Looks up every tool on this machine.
    pub fn detect() -> (r: RuntimeTools)
        ensures
            tool_found_as("ddgs"@, r.ddgs),
            tool_found_as("freeze"@, r.freeze),
            tool_found_as("opencode"@, r.opencode),
    {
        proof {
            reveal_strlit("ddgs");
            reveal_strlit("freeze");
            reveal_strlit("opencode");
            assert(bare_program_name("ddgs"@));
            assert(bare_program_name("freeze"@));
            assert(bare_program_name("opencode"@));
        }
        RuntimeTools { ddgs: detect_tool("ddgs"), freeze: detect_tool("freeze"), opencode: detect_tool("opencode") }
    }

    /// The tools' status for the health endpoint.
    pub fn to_public(&self) -> (r: ToolsCapability)
        ensures
            r.ddgs.available == self.ddgs.available && r.ddgs.path == self.ddgs.path,
            r.freeze.available == self.freeze.available && r.freeze.path == self.freeze.path,
            r.opencode.available == self.opencode.available && r.opencode.path == self.opencode.path,
    {
        ToolsCapability {
            ddgs: tool_capability(&self.ddgs),
            freeze: tool_capability(&self.freeze),
            opencode: tool_capability(&self.opencode),
        }
    }
}

} // verus!
