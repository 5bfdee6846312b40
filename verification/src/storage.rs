//! Maintenance of the stored server-configuration collection.
//!
//! These are the record-level rules of the configuration store: names are
//! unique on insertion, a missing id gets a fresh one, timestamps are
//! maintained, updates address a record by id, and deletion removes every
//! record with the given id. Reading and writing the collection on disk is
//! left to the caller.

use vstd::prelude::*;
use crate::clock::now_timestamp;
use crate::config::{
    clone_config, config_eq, opt_pairs_eq, opt_vec_str_eq, MCPServerConfig, MCPServersStore,
};
use crate::errors::AppError;
use crate::ids::fresh_uuid;
use crate::import_export::{has_name, server_name_exists};
use crate::util::{lemma_suffix_step, str_concat, str_eq};

verus! {

/// Some record in `s` has the id `id`.
pub open spec fn has_server_id(s: Seq<MCPServerConfig>, id: Seq<char>) -> bool {
    exists|i: int| 0 <= i < s.len() && s[i].id@ == id
}

/// The first index in `s` whose record has the id `id`.
pub open spec fn first_id_index(s: Seq<MCPServerConfig>, id: Seq<char>) -> int {
    choose|i: int|
        0 <= i < s.len() && s[i].id@ == id && (forall|k: int| 0 <= k < i ==> s[k].id@ != id)
}

/// If `s[i]` has the id and nothing before it does, `i` is the first index
/// with that id.
proof fn lemma_first_id_index(s: Seq<MCPServerConfig>, id: Seq<char>, i: int)
    requires
        0 <= i < s.len(),
        s[i].id@ == id,
        forall|k: int| 0 <= k < i ==> s[k].id@ != id,
    ensures
        has_server_id(s, id),
        first_id_index(s, id) == i,
{
    assert(has_server_id(s, id));
    let j = first_id_index(s, id);
    assert(0 <= j < s.len() && s[j].id@ == id && (forall|k: int| 0 <= k < j ==> s[k].id@ != id));
    if j < i {
        assert(s[j].id@ != id);
    }
    if i < j {
        assert(s[i].id@ != id);
    }
}

/// Whether a record with this id is present.
pub fn server_id_exists(servers: &Vec<MCPServerConfig>, id: &str) -> (r: bool)
    ensures
        r == has_server_id(servers@, id@),
{
    let mut i: usize = 0;
    while i < servers.len()
        invariant
            0 <= i <= servers@.len(),
            forall|k: int| 0 <= k < i ==> servers@[k].id@ != id@,
        decreases servers@.len() - i,
    {
        if str_eq(servers[i].id.as_str(), id) {
            return true;
        }
        i = i + 1;
    }
    false
}

/// How an added record relates to the input record: every field carried
/// over, except that an empty id is replaced by a fresh prefixed one, a
/// zero creation time is set to the update time, and the update time is
/// set anew.
pub open spec fn added_server_ok(s: MCPServerConfig, out: MCPServerConfig) -> bool {
    &&& out.name == s.name
    &&& out.server_type == s.server_type
    &&& out.enabled == s.enabled
    &&& out.command == s.command
    &&& opt_vec_str_eq(out.args, s.args)
    &&& opt_pairs_eq(out.env, s.env)
    &&& out.url == s.url
    &&& opt_pairs_eq(out.headers, s.headers)
    &&& out.description == s.description
    &&& (s.id@.len() > 0 ==> out.id == s.id)
    &&& (s.id@.len() == 0 ==> (exists|u: Seq<char>| out.id@ == "mcp_"@ + u))
    &&& (s.created_at != 0 ==> out.created_at == s.created_at)
    &&& (s.created_at == 0 ==> out.created_at == out.updated_at)
}

/// Add one record to the store. Fails, leaving the store unchanged, iff a
/// record with the same name is already present; otherwise the prepared
/// record is appended and returned.
pub fn add_server_to_store(store: &mut MCPServersStore, server: MCPServerConfig) -> (r: Result<
    MCPServerConfig,
    AppError,
>)
    ensures
        has_name(old(store).servers@, server.name@) ==> {
            &&& r matches Err(e) && e is Mcp
            &&& final(store).servers@ == old(store).servers@
            &&& final(store).version == old(store).version
            &&& final(store).updated_at == old(store).updated_at
        },
        !has_name(old(store).servers@, server.name@) ==> (r matches Ok(added) && {
            &&& added_server_ok(server, added)
            &&& final(store).servers@.len() == old(store).servers@.len() + 1
            &&& (forall|i: int|
                0 <= i < old(store).servers@.len() ==> final(store).servers@[i] == old(
                    store,
                ).servers@[i])
            &&& config_eq(final(store).servers@.last(), added)
            &&& final(store).version == 1
            &&& final(store).updated_at == added.updated_at
        }),
{
    if server_name_exists(&store.servers, server.name.as_str()) {
        let msg = str_concat(
            str_concat("Server with name '", server.name.as_str()).as_str(),
            "' already exists",
        );
        return Err(AppError::Mcp(msg));
    }
    let mut new_server = server;
    if new_server.id.as_str().is_empty() {
        let uid = fresh_uuid();
        new_server.id = str_concat("mcp_", uid.as_str());
        proof {
            assert(new_server.id@ == "mcp_"@ + uid@);
        }
    }
    let now = now_timestamp();
    if new_server.created_at == 0 {
        new_server.created_at = now;
    }
    new_server.updated_at = now;
    store.servers.push(clone_config(&new_server));
    store.version = 1;
    store.updated_at = now;
    Ok(new_server)
}

/// How an updated record relates to the submitted one: every field carried
/// over except the update time, which is set anew.
pub open spec fn same_but_updated_at(s: MCPServerConfig, out: MCPServerConfig) -> bool {
    &&& out.id == s.id
    &&& out.name == s.name
    &&& out.server_type == s.server_type
    &&& out.enabled == s.enabled
    &&& out.command == s.command
    &&& opt_vec_str_eq(out.args, s.args)
    &&& opt_pairs_eq(out.env, s.env)
    &&& out.url == s.url
    &&& opt_pairs_eq(out.headers, s.headers)
    &&& out.description == s.description
    &&& out.created_at == s.created_at
}

/// Replace the record whose id matches the submitted record. Fails with
/// `NotFound`, leaving the store unchanged, iff no record has that id;
/// otherwise the first such record is replaced and the stored update time
/// refreshed.
pub fn update_server_in_store(store: &mut MCPServersStore, server: MCPServerConfig) -> (r: Result<
    MCPServerConfig,
    AppError,
>)
    ensures
        !has_server_id(old(store).servers@, server.id@) ==> {
            &&& r matches Err(e) && e is NotFound
            &&& final(store).servers@ == old(store).servers@
            &&& final(store).version == old(store).version
            &&& final(store).updated_at == old(store).updated_at
        },
        has_server_id(old(store).servers@, server.id@) ==> (r matches Ok(updated) && {
            let i = first_id_index(old(store).servers@, server.id@);
            &&& 0 <= i < old(store).servers@.len()
            &&& old(store).servers@[i].id@ == server.id@
            &&& same_but_updated_at(server, updated)
            &&& final(store).servers@.len() == old(store).servers@.len()
            &&& (forall|k: int|
                0 <= k < old(store).servers@.len() && k != i ==> final(store).servers@[k] == old(
                    store,
                ).servers@[k])
            &&& config_eq(final(store).servers@[i], updated)
            &&& final(store).updated_at == updated.updated_at
        }),
{
    let ghost orig = store.servers@;
    let mut i: usize = 0;
    while i < store.servers.len()
        invariant
            store.servers@ == orig,
            orig == old(store).servers@,
            store.version == old(store).version,
            store.updated_at == old(store).updated_at,
            0 <= i <= orig.len(),
            forall|k: int| 0 <= k < i ==> orig[k].id@ != server.id@,
        decreases orig.len() - i,
    {
        if str_eq(store.servers[i].id.as_str(), server.id.as_str()) {
            proof {
                lemma_first_id_index(orig, server.id@, i as int);
            }
            let now = now_timestamp();
            let mut updated = server;
            updated.updated_at = now;
            store.servers.set(i, clone_config(&updated));
            store.updated_at = now;
            return Ok(updated);
        }
        i = i + 1;
    }
    let msg = str_concat(str_concat("Server '", server.id.as_str()).as_str(), "' not found");
    Err(AppError::NotFound(msg))
}

/// Remove every record with this id from the store. Fails with `NotFound`,
/// leaving the store unchanged, iff no record has the id; otherwise the
/// remaining records are exactly those whose id differs, in order, and the
/// stored update time is refreshed.
pub fn delete_server_from_store(store: &mut MCPServersStore, server_id: &str) -> (r: Result<
    (),
    AppError,
>)
    ensures
        !has_server_id(old(store).servers@, server_id@) ==> {
            &&& r matches Err(e) && e is NotFound
            &&& final(store).servers@ == old(store).servers@
            &&& final(store).version == old(store).version
            &&& final(store).updated_at == old(store).updated_at
        },
        has_server_id(old(store).servers@, server_id@) ==> {
            &&& r is Ok
            &&& final(store).servers@ == old(store).servers@.filter(
                |s: MCPServerConfig| s.id@ != server_id@,
            )
            &&& final(store).version == old(store).version
        },
{
    if !server_id_exists(&store.servers, server_id) {
        let msg = str_concat(str_concat("Server '", server_id).as_str(), "' not found");
        return Err(AppError::NotFound(msg));
    }
    let ghost pred = |s: MCPServerConfig| s.id@ != server_id@;
    let ghost orig = store.servers@;
    let mut items: Vec<MCPServerConfig> = Vec::new();
    core::mem::swap(&mut store.servers, &mut items);
    let ghost all = items@;
    let mut kept: Vec<MCPServerConfig> = Vec::new();
    proof {
        reveal(Seq::filter);
        assert(all.take(0) =~= Seq::<MCPServerConfig>::empty());
        assert(kept@ =~= all.take(0).filter(pred));
        assert(items@ =~= all.skip(0));
    }
    let ghost mut j: int = 0;
    while items.len() > 0
        invariant
            0 <= j <= all.len(),
            items@ == all.skip(j),
            all == orig,
            kept@ == all.take(j).filter(pred),
            pred == (|s: MCPServerConfig| s.id@ != server_id@),
        decreases items@.len(),
    {
        let item = items.remove(0);
        proof {
            lemma_suffix_step(all, j);
            assert(item == all[j]);
            assert(items@ == all.skip(j + 1));
        }
        let keep = !str_eq(item.id.as_str(), server_id);
        proof {
            reveal(Seq::filter);
            assert(all.take(j + 1).drop_last() =~= all.take(j));
            assert(all.take(j + 1).last() == all[j]);
            assert(keep == pred(all[j]));
        }
        if keep {
            kept.push(item);
        }
        proof {
            assert(kept@ == all.take(j + 1).filter(pred));
            j = j + 1;
        }
    }
    proof {
        assert(all.take(all.len() as int) =~= all);
        assert(j == all.len());
    }
    core::mem::swap(&mut store.servers, &mut kept);
    store.updated_at = now_timestamp();
    Ok(())
}

} // verus!
