use vstd::prelude::*;
use crate::text::{chars_of, starts_with, string_of};
use crate::workflow::{copy_strings, seq_view};

verus! {

/// A plugin as the list shows it.
#[derive(Debug)]
pub struct PluginSummaryDto {
    pub id: String,
    pub name: String,
    pub version: String,
    pub description: String,
    pub kind: String,
    pub enabled: bool,
    pub tools: Vec<String>,
    pub mcp_servers: Vec<String>,
    pub skills: Vec<String>,
}

/// A tool a plugin declares.
#[derive(Debug)]
pub struct ToolDto {
    pub name: String,
    pub description: String,
}

/// An MCP server a plugin declares.
#[derive(Debug)]
pub struct McpServerDto {
    pub name: String,
    pub command: String,
}

/// A skill a plugin declares.
#[derive(Debug)]
pub struct SkillDto {
    pub name: String,
    pub path: String,
}

/// What an install did.
#[derive(Debug)]
pub struct InstallOutcomeDto {
    pub plugin_id: String,
    pub version: String,
    pub install_path: String,
}

/// What an update did.
#[derive(Debug)]
pub struct UpdateOutcomeDto {
    pub plugin_id: String,
    pub old_version: String,
    pub new_version: String,
    pub install_path: String,
}

/// A validated plugin manifest; `hooks` maps "PreToolUse" and
/// "PostToolUse" to the hook commands.
#[derive(Debug)]
pub struct PluginManifestDto {
    pub name: String,
    pub version: String,
    pub description: String,
    pub permissions: Vec<String>,
    pub default_enabled: bool,
    pub hooks: Vec<(String, Vec<String>)>,
    pub tools: Vec<ToolDto>,
    pub mcp_servers: Vec<McpServerDto>,
    pub skills: Vec<SkillDto>,
}

/// The hooks entry of a manifest: the pre- and post-tool-use commands.
pub fn plugin_hooks(pre_tool_use: &Vec<String>, post_tool_use: &Vec<String>) -> (r: Vec<(String, Vec<String>)>)
    ensures
        r.len() == 2,
        r@[0].0@ == "PreToolUse"@,
        seq_view(r@[0].1@) == seq_view(pre_tool_use@),
        r@[1].0@ == "PostToolUse"@,
        seq_view(r@[1].1@) == seq_view(post_tool_use@),
{
    let mut r: Vec<(String, Vec<String>)> = Vec::new();
    r.push((string_of("PreToolUse"), copy_strings(pre_tool_use)));
    r.push((string_of("PostToolUse"), copy_strings(post_tool_use)));
    r
}

/// A source fetched over the network (installed without an integrity check).
pub open spec fn is_remote_source(s: Seq<char>) -> bool {
    starts_with(s, "http://"@) || starts_with(s, "https://"@) || starts_with(s, "git@"@) || starts_with(
        s,
        "@"@,
    )
}

fn text_starts_with(s: &str, p: &str) -> (r: bool)
    ensures
        r == starts_with(s@, p@),
{
    let v = chars_of(s);
    let pv = chars_of(p);
    assert(v@.subrange(0, v.len() as int) =~= v@);
    crate::text::range_starts_with(&v, 0, v.len(), &pv)
}

/// Whether a plugin source is remote (a URL, a git address or an npm
/// scope), which the install logs as unverified.
pub fn is_remote_plugin_source(source: &str) -> (r: bool)
    ensures
        r == is_remote_source(source@),
{
    text_starts_with(source, "http://") || text_starts_with(source, "https://") || text_starts_with(
        source,
        "git@",
    ) || text_starts_with(source, "@")
}

} // verus!
