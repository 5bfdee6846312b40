//! Importing server configurations from external payloads.
//!
//! A payload carries either a direct list of configuration records, or an
//! `mcpServers` object in the format common to external tools, or both.
//! Records are prepared (fresh ids and timestamps where missing), then
//! merged into the store under the validation rules: when merging, a name
//! already present is skipped; a stdio record needs a command; an http or
//! sse record needs a url.

use vstd::prelude::*;
use crate::clock::now_timestamp;
use crate::config::{
    clone_configs, config_eq, opt_pairs_eq, opt_vec_str_eq, ClaudeDesktopMCPServer,
    MCPImportPayload, MCPImportResult, MCPServerConfig, MCPServersStore,
};
use crate::ids::fresh_uuid;
use crate::util::{
    clone_opt_pairs, clone_opt_string, clone_opt_string_vec, lemma_suffix_step, lower_of,
    lowercase, replace_spaces, str_concat, str_eq, underscored,
};

verus! {

/// The server type an external entry converts to: its own declared type,
/// else `"stdio"` when it has a command, else `"http"` when it has a url,
/// else `"stdio"`.
pub open spec fn inferred_type_ok(server: ClaudeDesktopMCPServer, out_type: Seq<char>) -> bool {
    match server.server_type {
        Some(t) => out_type == t@,
        None => if server.command is Some {
            out_type == "stdio"@
        } else if server.url is Some {
            out_type == "http"@
        } else {
            out_type == "stdio"@
        },
    }
}

/// How an external entry named `name` converts to a configuration record:
/// fields carried over, type inferred, disabled for safety, a fresh id
/// derived from the lowercased name, and equal creation and update times.
pub open spec fn claude_conversion_ok(
    name: Seq<char>,
    server: ClaudeDesktopMCPServer,
    out: MCPServerConfig,
) -> bool {
    &&& out.name@ == name
    &&& inferred_type_ok(server, out.server_type@)
    &&& out.enabled == false
    &&& out.command == server.command
    &&& opt_vec_str_eq(out.args, server.args)
    &&& opt_pairs_eq(out.env, server.env)
    &&& out.url == server.url
    &&& opt_pairs_eq(out.headers, server.headers)
    &&& (out.description matches Some(d) && d@ == "Imported from external configuration"@)
    &&& out.created_at == out.updated_at
    &&& (exists|u: Seq<char>| out.id@ == "imported_"@ + underscored(lower_of(name)) + "_"@ + u)
}

/// Convert one external entry to a configuration record. Imported servers
/// start disabled for safety.
pub fn convert_claude_desktop_server(name: &str, server: &ClaudeDesktopMCPServer) -> (r:
    MCPServerConfig)
    ensures
        claude_conversion_ok(name@, *server, r),
{
    let now = now_timestamp();
    let server_type = match &server.server_type {
        Some(t) => t.clone(),
        None => {
            if server.command.is_some() {
                String::from_str("stdio")
            } else if server.url.is_some() {
                String::from_str("http")
            } else {
                String::from_str("stdio")
            }
        },
    };
    let lowered = lowercase(name);
    let base = replace_spaces(lowered.as_str());
    let uid = fresh_uuid();
    let id = str_concat(
        str_concat(str_concat("imported_", base.as_str()).as_str(), "_").as_str(),
        uid.as_str(),
    );
    proof {
        assert(id@ == "imported_"@ + underscored(lower_of(name@)) + "_"@ + uid@);
    }
    MCPServerConfig {
        id,
        name: name.to_owned(),
        server_type,
        enabled: false,
        command: clone_opt_string(&server.command),
        args: clone_opt_string_vec(&server.args),
        env: clone_opt_pairs(&server.env),
        url: clone_opt_string(&server.url),
        headers: clone_opt_pairs(&server.headers),
        description: Some(String::from_str("Imported from external configuration")),
        created_at: now,
        updated_at: now,
    }
}

/// How a directly imported record is prepared: all fields kept, except
/// that an empty id is replaced by a fresh one and zero timestamps are
/// filled in.
pub open spec fn direct_import_ok(s: MCPServerConfig, out: MCPServerConfig) -> bool {
    &&& out.name == s.name
    &&& out.server_type == s.server_type
    &&& out.enabled == s.enabled
    &&& out.command == s.command
    &&& opt_vec_str_eq(out.args, s.args)
    &&& opt_pairs_eq(out.env, s.env)
    &&& out.url == s.url
    &&& opt_pairs_eq(out.headers, s.headers)
    &&& out.description == s.description
    &&& (s.id@.len() > 0 ==> out.id == s.id)
    &&& (s.id@.len() == 0 ==> (exists|u: Seq<char>| out.id@ == "imported_"@ + u))
    &&& (s.created_at != 0 ==> out.created_at == s.created_at)
    &&& (s.updated_at != 0 ==> out.updated_at == s.updated_at)
}

/// Prepare one directly imported record.
fn prepare_direct_import(s: MCPServerConfig) -> (r: MCPServerConfig)
    ensures
        direct_import_ok(s, r),
{
    let mut server = s;
    if server.id.as_str().is_empty() {
        let uid = fresh_uuid();
        server.id = str_concat("imported_", uid.as_str());
        proof {
            assert(server.id@ == "imported_"@ + uid@);
        }
    }
    let now = now_timestamp();
    if server.created_at == 0 {
        server.created_at = now;
    }
    if server.updated_at == 0 {
        server.updated_at = now;
    }
    server
}

/// The direct records of a payload.
pub open spec fn spec_direct_servers(p: MCPImportPayload) -> Seq<MCPServerConfig> {
    match p.servers {
        Some(v) => v@,
        None => Seq::empty(),
    }
}

/// The external-format entries of a payload.
pub open spec fn spec_claude_entries(p: MCPImportPayload) -> Seq<(String, ClaudeDesktopMCPServer)> {
    match p.mcp_servers {
        Some(v) => v@,
        None => Seq::empty(),
    }
}

/// Turn a decoded import payload into configuration records: the direct
/// records first, prepared; then the external entries, converted, in
/// order.
pub fn assemble_import_servers(payload: MCPImportPayload) -> (r: Vec<MCPServerConfig>)
    ensures
        r@.len() == spec_direct_servers(payload).len() + spec_claude_entries(payload).len(),
        forall|i: int|
            0 <= i < spec_direct_servers(payload).len() ==> direct_import_ok(
                spec_direct_servers(payload)[i],
                #[trigger] r@[i],
            ),
        forall|i: int|
            0 <= i < spec_claude_entries(payload).len() ==> claude_conversion_ok(
                spec_claude_entries(payload)[i].0@,
                spec_claude_entries(payload)[i].1,
                #[trigger] r@[spec_direct_servers(payload).len() + i],
            ),
{
    let ghost direct = spec_direct_servers(payload);
    let ghost claude = spec_claude_entries(payload);
    let MCPImportPayload { version: _, source: _, servers, mcp_servers } = payload;
    let mut out: Vec<MCPServerConfig> = Vec::new();
    if let Some(direct_servers) = servers {
        let mut items = direct_servers;
        while items.len() > 0
            invariant
                out@.len() + items@.len() == direct.len(),
                items@ == direct.skip(out@.len() as int),
                forall|k: int|
                    0 <= k < out@.len() ==> direct_import_ok(direct[k], #[trigger] out@[k]),
            decreases items@.len(),
        {
            let ghost j = out@.len() as int;
            let item = items.remove(0);
            proof {
                lemma_suffix_step(direct, j);
                assert(item == direct[j]);
                assert(items@ == direct.skip(j + 1));
            }
            out.push(prepare_direct_import(item));
        }
    }
    let ghost n = direct.len() as int;
    proof {
        assert(out@.len() == n);
    }
    if let Some(claude_servers) = mcp_servers {
        let mut items = claude_servers;
        proof {
            assert(items@ =~= claude.skip(out@.len() - n));
        }
        while items.len() > 0
            invariant
                0 <= out@.len() - n <= claude.len(),
                items@.len() == claude.len() - (out@.len() - n),
                n == direct.len(),
                items@ == claude.skip(out@.len() - n),
                forall|k: int|
                    0 <= k < direct.len() ==> direct_import_ok(direct[k], #[trigger] out@[k]),
                forall|k: int|
                    0 <= k < out@.len() - n ==> claude_conversion_ok(
                        claude[k].0@,
                        claude[k].1,
                        #[trigger] out@[n + k],
                    ),
            decreases items@.len(),
        {
            let ghost j = out@.len() - n;
            let entry = items.remove(0);
            proof {
                lemma_suffix_step(claude, j);
                assert(entry == claude[j]);
                assert(items@ == claude.skip(j + 1));
            }
            out.push(convert_claude_desktop_server(entry.0.as_str(), &entry.1));
        }
    }
    out
}

/// Some record in `s` has the name `n`.
pub open spec fn has_name(s: Seq<MCPServerConfig>, n: Seq<char>) -> bool {
    exists|i: int| 0 <= i < s.len() && s[i].name@ == n
}

/// Whether a record with this name is present.
pub fn server_name_exists(servers: &Vec<MCPServerConfig>, name: &str) -> (r: bool)
    ensures
        r == has_name(servers@, name@),
{
    let mut i: usize = 0;
    while i < servers.len()
        invariant
            0 <= i <= servers@.len(),
            forall|k: int| 0 <= k < i ==> servers@[k].name@ != name@,
        decreases servers@.len() - i,
    {
        if str_eq(servers[i].name.as_str(), name) {
            return true;
        }
        i = i + 1;
    }
    false
}

/// Whether an imported record is accepted against the records already
/// present: when merging its name must be new, a stdio record needs a
/// command, and an http or sse record needs a url.
pub open spec fn import_accepts(
    existing: Seq<MCPServerConfig>,
    s: MCPServerConfig,
    merge: bool,
) -> bool {
    &&& !(merge && has_name(existing, s.name@))
    &&& !(s.server_type@ == "stdio"@ && s.command is None)
    &&& !((s.server_type@ == "http"@ || s.server_type@ == "sse"@) && s.url is None)
}

/// The outcome of merging `items` into `existing`, one record at a time:
/// the final record list, the number imported and the number skipped.
pub open spec fn spec_import(
    existing: Seq<MCPServerConfig>,
    items: Seq<MCPServerConfig>,
    merge: bool,
) -> (Seq<MCPServerConfig>, int, int)
    decreases items.len(),
{
    if items.len() == 0 {
        (existing, 0, 0)
    } else if import_accepts(existing, items[0], merge) {
        let rec = spec_import(existing.push(items[0]), items.skip(1), merge);
        (rec.0, rec.1 + 1, rec.2)
    } else {
        let rec = spec_import(existing, items.skip(1), merge);
        (rec.0, rec.1, rec.2 + 1)
    }
}

/// Merge prepared records into the store. Accepted records are appended in
/// order; each rejected record is skipped with a message and never blocks
/// the others; the overall call always succeeds once the merge has run,
/// with `success` reporting whether anything was imported or nothing had
/// to be skipped.
pub fn import_servers_into_store(
    store: &mut MCPServersStore,
    imported: Vec<MCPServerConfig>,
    merge: bool,
) -> (r: MCPImportResult)
    ensures
        final(store).servers@ == spec_import(old(store).servers@, imported@, merge).0,
        final(store).version == 1,
        r.imported_count as int == spec_import(old(store).servers@, imported@, merge).1,
        r.skipped_count as int == spec_import(old(store).servers@, imported@, merge).2,
        r.errors@.len() == r.skipped_count,
        r.success == (r.imported_count > 0 || r.skipped_count == 0),
        r.servers@.len() == final(store).servers@.len(),
        forall|i: int|
            0 <= i < final(store).servers@.len() ==> config_eq(
                final(store).servers@[i],
                #[trigger] r.servers@[i],
            ),
{
    let ghost orig_servers = old(store).servers@;
    let ghost all_items = imported@;
    let ghost target = spec_import(orig_servers, all_items, merge);
    let mut items = imported;
    let total: usize = items.len();
    let mut imported_count: usize = 0;
    let mut skipped_count: usize = 0;
    let mut errors: Vec<String> = Vec::new();
    while items.len() > 0
        invariant
            total == all_items.len(),
            imported_count + skipped_count + items@.len() == total,
            errors@.len() == skipped_count,
            spec_import(store.servers@, items@, merge) == (
                target.0,
                target.1 - imported_count,
                target.2 - skipped_count,
            ),
            target == spec_import(orig_servers, all_items, merge),
        decreases items@.len(),
    {
        let ghost pre_items = items@;
        let ghost pre_servers = store.servers@;
        let item = items.remove(0);
        proof {
            assert(item == pre_items[0]);
            assert(items@ =~= pre_items.skip(1));
        }
        let name_taken = merge && server_name_exists(&store.servers, item.name.as_str());
        let is_stdio = str_eq(item.server_type.as_str(), "stdio");
        let is_http_like = str_eq(item.server_type.as_str(), "http") || str_eq(
            item.server_type.as_str(),
            "sse",
        );
        if name_taken {
            let msg = str_concat(
                str_concat("Skipped '", item.name.as_str()).as_str(),
                "': already exists",
            );
            errors.push(msg);
            skipped_count = skipped_count + 1;
            proof {
                assert(!import_accepts(pre_servers, item, merge));
            }
        } else if is_stdio && item.command.is_none() {
            let msg = str_concat(
                str_concat("Skipped '", item.name.as_str()).as_str(),
                "': stdio server requires command",
            );
            errors.push(msg);
            skipped_count = skipped_count + 1;
            proof {
                assert(!import_accepts(pre_servers, item, merge));
            }
        } else if is_http_like && item.url.is_none() {
            let msg = str_concat(
                str_concat(
                    str_concat(
                        str_concat("Skipped '", item.name.as_str()).as_str(),
                        "': ",
                    ).as_str(),
                    item.server_type.as_str(),
                ).as_str(),
                " server requires url",
            );
            errors.push(msg);
            skipped_count = skipped_count + 1;
            proof {
                assert(!import_accepts(pre_servers, item, merge));
            }
        } else {
            store.servers.push(item);
            imported_count = imported_count + 1;
            proof {
                assert(import_accepts(pre_servers, item, merge));
            }
        }
    }
    store.version = 1;
    store.updated_at = now_timestamp();
    let success = imported_count > 0 || skipped_count == 0;
    let servers = clone_configs(&store.servers);
    MCPImportResult {
        success,
        imported_count,
        skipped_count,
        errors,
        servers,
    }
}

} // verus!
