//! Built-in server configuration presets.

use vstd::prelude::*;
use crate::clock::now_timestamp;
use crate::config::MCPServerConfig;
use crate::ids::fresh_uuid;
use crate::util::str_concat;

verus! {

/// What holds of every preset record: it is a stdio record, disabled, run
/// through `npx`, with a description and equal creation and update times.
pub open spec fn preset_ok(p: MCPServerConfig) -> bool {
    &&& p.server_type@ == "stdio"@
    &&& p.enabled == false
    &&& (p.command matches Some(c) && c@ == "npx"@)
    &&& p.args is Some
    &&& p.description is Some
    &&& p.created_at == p.updated_at
}

/// Build one preset record.
fn preset(
    id_prefix: &str,
    name: &str,
    args: Vec<String>,
    env: Option<Vec<(String, String)>>,
    description: &str,
    now: i64,
) -> (r: MCPServerConfig)
    ensures
        preset_ok(r),
        r.name@ == name@,
        r.created_at == now,
        (exists|u: Seq<char>| r.id@ == id_prefix@ + u),
        (r.args matches Some(a) && a@ == args@),
        (match (r.env, env) {
            (Some(x), Some(y)) => x@ == y@,
            (None, None) => true,
            _ => false,
        }),
{
    let uid = fresh_uuid();
    let id = str_concat(id_prefix, uid.as_str());
    proof {
        assert(id@ == id_prefix@ + uid@);
    }
    MCPServerConfig {
        id,
        name: name.to_owned(),
        server_type: String::from_str("stdio"),
        enabled: false,
        command: Some(String::from_str("npx")),
        args: Some(args),
        env,
        url: None,
        headers: None,
        description: Some(description.to_owned()),
        created_at: now,
        updated_at: now,
    }
}

/// The available server presets: filesystem access, a source-forge
/// connector, conversation memory, and web fetching — four stdio records,
/// each with a fresh prefixed id.
pub fn get_mcp_server_presets() -> (r: Vec<MCPServerConfig>)
    ensures
        r@.len() == 4,
        forall|i: int| 0 <= i < 4 ==> preset_ok(#[trigger] r@[i]),
        r@[0].name@ == "Filesystem (Local)"@,
        r@[1].name@ == "GitHub"@,
        r@[2].name@ == "Memory"@,
        r@[3].name@ == "Fetch"@,
        (exists|u: Seq<char>| r@[0].id@ == "preset_filesystem_"@ + u),
        (exists|u: Seq<char>| r@[1].id@ == "preset_github_"@ + u),
        (exists|u: Seq<char>| r@[2].id@ == "preset_memory_"@ + u),
        (exists|u: Seq<char>| r@[3].id@ == "preset_fetch_"@ + u),
        (r@[0].args matches Some(a) && a@.len() == 3 && a@[0]@ == "-y"@ && a@[1]@
            == "@modelcontextprotocol/server-filesystem"@ && a@[2]@ == "."@),
        (r@[1].args matches Some(a) && a@.len() == 2 && a@[0]@ == "-y"@ && a@[1]@
            == "@modelcontextprotocol/server-github"@),
        (r@[2].args matches Some(a) && a@.len() == 2 && a@[0]@ == "-y"@ && a@[1]@
            == "@modelcontextprotocol/server-memory"@),
        (r@[3].args matches Some(a) && a@.len() == 2 && a@[0]@ == "-y"@ && a@[1]@
            == "@modelcontextprotocol/server-fetch"@),
        (r@[1].env matches Some(e) && e@.len() == 1 && e@[0].0@ == "GITHUB_PERSONAL_ACCESS_TOKEN"@
            && e@[0].1@ == ""@),
{
    let now = now_timestamp();

    let mut fs_args: Vec<String> = Vec::new();
    fs_args.push(String::from_str("-y"));
    fs_args.push(String::from_str("@modelcontextprotocol/server-filesystem"));
    fs_args.push(String::from_str("."));

    let mut gh_args: Vec<String> = Vec::new();
    gh_args.push(String::from_str("-y"));
    gh_args.push(String::from_str("@modelcontextprotocol/server-github"));
    let mut gh_env: Vec<(String, String)> = Vec::new();
    gh_env.push((String::from_str("GITHUB_PERSONAL_ACCESS_TOKEN"), String::from_str("")));

    let mut mem_args: Vec<String> = Vec::new();
    mem_args.push(String::from_str("-y"));
    mem_args.push(String::from_str("@modelcontextprotocol/server-memory"));

    let mut fetch_args: Vec<String> = Vec::new();
    fetch_args.push(String::from_str("-y"));
    fetch_args.push(String::from_str("@modelcontextprotocol/server-fetch"));

    let mut out: Vec<MCPServerConfig> = Vec::new();
    out.push(
        preset(
            "preset_filesystem_",
            "Filesystem (Local)",
            fs_args,
            None,
            "Access local filesystem",
            now,
        ),
    );
    out.push(
        preset(
            "preset_github_",
            "GitHub",
            gh_args,
            Some(gh_env),
            "Access GitHub repositories and issues",
            now,
        ),
    );
    out.push(
        preset("preset_memory_", "Memory", mem_args, None, "Persistent memory for conversations", now),
    );
    out.push(preset("preset_fetch_", "Fetch", fetch_args, None, "Fetch and parse web content", now));
    out
}

} // verus!
