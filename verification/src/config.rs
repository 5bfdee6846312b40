//! Server configuration records and the stdio connect decision.

use vstd::prelude::*;
use crate::errors::AppError;
use crate::util::{
    clone_opt_pairs, clone_opt_string, clone_opt_string_vec, clone_string_vec, str_concat, str_eq,
};

verus! {

/// A stored server configuration record. The session manager reads only
/// `id`, `name`, `server_type`, `command`, `args` and `env` from it; the
/// remaining fields belong to the storage subsystem.
pub struct MCPServerConfig {
    pub id: String,
    pub name: String,
    /// `"stdio"`, `"http"` or `"sse"`.
    pub server_type: String,
    pub enabled: bool,
    pub command: Option<String>,
    pub args: Option<Vec<String>>,
    pub env: Option<Vec<(String, String)>>,
    pub url: Option<String>,
    pub headers: Option<Vec<(String, String)>>,
    pub description: Option<String>,
    pub created_at: i64,
    pub updated_at: i64,
}

/// Runtime status of a managed server process.
pub struct MCPServerStatus {
    pub id: String,
    /// `"running"`, `"stopped"` or `"error"`.
    pub status: String,
    pub pid: Option<u32>,
    pub error: Option<String>,
    pub tools: Vec<String>,
}

/// One observed termination of a managed server process.
pub struct ProcessExit {
    pub success: bool,
    pub description: String,
}

/// Apply one poll observation to a server's runtime status. A process
/// that exited is marked stopped — with an explanation when the exit was
/// unsuccessful — and its entry is to be dropped; a polling error marks
/// the status as erroneous; no observation changes nothing.
pub fn apply_process_update(
    status: &mut MCPServerStatus,
    exit: Option<ProcessExit>,
    error: Option<String>,
) -> (dropped: bool)
    ensures
        final(status).id == old(status).id,
        final(status).tools@ == old(status).tools@,
        exit matches Some(e) ==> {
            &&& dropped
            &&& final(status).status@ == "stopped"@
            &&& final(status).pid is None
            &&& (!e.success ==> (final(status).error matches Some(msg) && msg@
                == "Process exited with: "@ + e.description@))
            &&& (e.success ==> final(status).error == old(status).error)
        },
        (exit is None && error is Some) ==> {
            &&& !dropped
            &&& final(status).status@ == "error"@
            &&& final(status).error == error
            &&& final(status).pid == old(status).pid
        },
        (exit is None && error is None) ==> (!dropped && *final(status) == *old(status)),
{
    match exit {
        Some(e) => {
            status.status = String::from_str("stopped");
            status.pid = None;
            if !e.success {
                status.error = Some(str_concat("Process exited with: ", e.description.as_str()));
            }
            true
        },
        None => {
            match error {
                Some(err) => {
                    status.status = String::from_str("error");
                    status.error = Some(err);
                },
                None => {},
            }
            false
        },
    }
}

/// The stored collection of server configurations.
pub struct MCPServersStore {
    pub version: u32,
    pub servers: Vec<MCPServerConfig>,
    pub updated_at: i64,
}

impl Default for MCPServersStore {
    /// An empty store.
    fn default() -> (r: Self)
        ensures
            r.version == 0,
            r.servers@.len() == 0,
            r.updated_at == 0,
    {
        MCPServersStore { version: 0, servers: Vec::new(), updated_at: 0 }
    }
}

/// One server entry of an external configuration file in the common
/// `mcpServers` object format.
pub struct ClaudeDesktopMCPServer {
    pub command: Option<String>,
    pub args: Option<Vec<String>>,
    pub env: Option<Vec<(String, String)>>,
    pub url: Option<String>,
    pub headers: Option<Vec<(String, String)>>,
    pub server_type: Option<String>,
}

/// An import payload: either a direct list of configuration records, or an
/// `mcpServers` object mapping names to external entries, or both.
pub struct MCPImportPayload {
    pub version: Option<u32>,
    pub source: Option<String>,
    pub servers: Option<Vec<MCPServerConfig>>,
    pub mcp_servers: Option<Vec<(String, ClaudeDesktopMCPServer)>>,
}

/// Result of importing server configurations.
pub struct MCPImportResult {
    pub success: bool,
    pub imported_count: usize,
    pub skipped_count: usize,
    pub errors: Vec<String>,
    pub servers: Vec<MCPServerConfig>,
}

/// Result of exporting server configurations to a file.
pub struct MCPExportResult {
    pub success: bool,
    pub file_path: Option<String>,
    pub server_count: usize,
    pub error: Option<String>,
}

/// A detected external configuration source.
pub struct MCPConfigSource {
    pub name: String,
    pub path: String,
    pub source_type: String,
}

/// Equality of two optional string lists, by contents.
pub open spec fn opt_vec_str_eq(a: Option<Vec<String>>, b: Option<Vec<String>>) -> bool {
    match (a, b) {
        (Some(x), Some(y)) => x@ == y@,
        (None, None) => true,
        _ => false,
    }
}

/// Equality of two optional string-pair lists, by contents.
pub open spec fn opt_pairs_eq(
    a: Option<Vec<(String, String)>>,
    b: Option<Vec<(String, String)>>,
) -> bool {
    match (a, b) {
        (Some(x), Some(y)) => x@ == y@,
        (None, None) => true,
        _ => false,
    }
}

/// Equality of two configuration records, field by field.
pub open spec fn config_eq(a: MCPServerConfig, b: MCPServerConfig) -> bool {
    &&& a.id == b.id
    &&& a.name == b.name
    &&& a.server_type == b.server_type
    &&& a.enabled == b.enabled
    &&& a.command == b.command
    &&& opt_vec_str_eq(a.args, b.args)
    &&& opt_pairs_eq(a.env, b.env)
    &&& a.url == b.url
    &&& opt_pairs_eq(a.headers, b.headers)
    &&& a.description == b.description
    &&& a.created_at == b.created_at
    &&& a.updated_at == b.updated_at
}

/// A copy of a configuration record, equal to the original field by field.
pub fn clone_config(c: &MCPServerConfig) -> (r: MCPServerConfig)
    ensures
        config_eq(*c, r),
{
    MCPServerConfig {
        id: c.id.clone(),
        name: c.name.clone(),
        server_type: c.server_type.clone(),
        enabled: c.enabled,
        command: clone_opt_string(&c.command),
        args: clone_opt_string_vec(&c.args),
        env: clone_opt_pairs(&c.env),
        url: clone_opt_string(&c.url),
        headers: clone_opt_pairs(&c.headers),
        description: clone_opt_string(&c.description),
        created_at: c.created_at,
        updated_at: c.updated_at,
    }
}

/// A copy of a list of configuration records, equal element by element.
pub fn clone_configs(v: &Vec<MCPServerConfig>) -> (r: Vec<MCPServerConfig>)
    ensures
        r@.len() == v@.len(),
        forall|i: int| 0 <= i < v@.len() ==> config_eq(v@[i], #[trigger] r@[i]),
{
    let mut out: Vec<MCPServerConfig> = Vec::new();
    let mut i: usize = 0;
    while i < v.len()
        invariant
            0 <= i <= v@.len(),
            out@.len() == i,
            forall|k: int| 0 <= k < i ==> config_eq(v@[k], #[trigger] out@[k]),
        decreases v@.len() - i,
    {
        out.push(clone_config(&v[i]));
        i = i + 1;
    }
    out
}

/// What a stdio connect attempt will launch: the command, its arguments
/// and its environment entries.
pub struct MCPLaunchPlan {
    pub command: String,
    pub args: Vec<String>,
    pub env: Vec<(String, String)>,
}

/// Decide how a configuration record is connected. Only `"stdio"` records
/// are supported by this transport: any other type fails with
/// `UnsupportedTransport` before any launch attempt is made, and a stdio
/// record without a command fails as a configuration error. On success the
/// returned plan carries the record's command, arguments (empty when
/// unspecified) and environment entries (empty when unspecified).
pub fn stdio_connect_plan(config: &MCPServerConfig) -> (r: Result<MCPLaunchPlan, AppError>)
    ensures
        config.server_type@ != "stdio"@ ==> (r matches Err(e) && e matches
            AppError::UnsupportedTransport(m) && m@
            == "Only stdio MCP servers are supported for native connections"@),
        config.server_type@ == "stdio"@ && config.command is None ==> (r matches Err(e)
            && e matches AppError::Mcp(m) && m@ == "No command specified for stdio server"@),
        (config.server_type@ == "stdio"@ && config.command is Some) ==> (r matches Ok(p)
            && {
            &&& p.command@ == config.command->0@
            &&& (match config.args {
                Some(a) => p.args@ == a@,
                None => p.args@.len() == 0,
            })
            &&& (match config.env {
                Some(e) => p.env@ == e@,
                None => p.env@.len() == 0,
            })
        }),
{
    if !str_eq(config.server_type.as_str(), "stdio") {
        return Err(
            AppError::UnsupportedTransport(
                String::from_str("Only stdio MCP servers are supported for native connections"),
            ),
        );
    }
    let command = match &config.command {
        Some(c) => c.clone(),
        None => {
            return Err(AppError::Mcp(String::from_str("No command specified for stdio server")));
        },
    };
    let args = match &config.args {
        Some(a) => clone_string_vec(a),
        None => Vec::new(),
    };
    let env = match clone_opt_pairs(&config.env) {
        Some(e) => e,
        None => Vec::new(),
    };
    Ok(MCPLaunchPlan { command, args, env })
}

} // verus!
