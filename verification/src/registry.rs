//! Session registry.
//!
//! [`MCPClientState`] owns the mapping from server id to live session: the
//! single source of truth for which peers are connected. A server id maps
//! to at most one live session at any time (the well-formedness invariant
//! [`MCPClientState::wf`]), and a session exists only between a successful
//! handshake (recorded by [`MCPClientState::complete_connect`]) and its
//! removal.
//!
//! The registry is generic in the peer handle type `P`: the handle is
//! exclusively owned by its registry entry and is handed back out exactly
//! once, on removal, so that its transport can be cancelled.

use vstd::prelude::*;
use crate::capabilities::{
    clone_handshake, extract_capabilities, extract_protocol_version, spec_extract_capabilities,
    MCPHandshake,
};
use crate::errors::AppError;
use crate::model::MCPClientInfo;
use crate::util::{str_concat, str_eq};

verus! {

/// One live session: a stable server id, a display name, the owned peer
/// handle, and the handshake data recorded at connect time.
pub struct MCPClientSession<P> {
    pub server_id: String,
    pub server_name: String,
    pub service: P,
    pub handshake: Option<MCPHandshake>,
}

/// No two sessions share a server id.
pub open spec fn unique_ids<P>(s: Seq<MCPClientSession<P>>) -> bool {
    forall|i: int, j: int|
        0 <= i < j < s.len() ==> s[i].server_id@ != s[j].server_id@
}

/// Some session in `s` has server id `id`.
pub open spec fn has_id<P>(s: Seq<MCPClientSession<P>>, id: Seq<char>) -> bool {
    exists|i: int| 0 <= i < s.len() && s[i].server_id@ == id
}

/// The index of the session with server id `id`.
pub open spec fn id_index<P>(s: Seq<MCPClientSession<P>>, id: Seq<char>) -> int {
    choose|i: int| 0 <= i < s.len() && s[i].server_id@ == id
}

/// The session with server id `id`.
pub open spec fn session_at<P>(s: Seq<MCPClientSession<P>>, id: Seq<char>) -> MCPClientSession<P> {
    s[id_index(s, id)]
}

/// How a client snapshot reflects a stored session: same id and name, the
/// protocol version and capability flags derived from the stored handshake
/// data, and status `"connected"`.
pub open spec fn is_client_info_of<P>(s: MCPClientSession<P>, info: MCPClientInfo) -> bool {
    &&& info.server_id@ == s.server_id@
    &&& info.server_name@ == s.server_name@
    &&& (info.protocol_version is Some <==> s.handshake is Some)
    &&& (info.protocol_version matches Some(v) ==> s.handshake matches Some(h) && v@
        == h.protocol_version@)
    &&& info.capabilities == spec_extract_capabilities(s.handshake)
    &&& info.status@ == "connected"@
}

/// Registry of live sessions.
pub struct MCPClientState<P> {
    sessions: Vec<MCPClientSession<P>>,
}

impl<P> View for MCPClientState<P> {
    type V = Seq<MCPClientSession<P>>;

    closed spec fn view(&self) -> Seq<MCPClientSession<P>> {
        self.sessions@
    }
}

impl<P> Default for MCPClientState<P> {
    /// An empty registry.
    fn default() -> (r: Self)
        ensures
            r@ =~= Seq::<MCPClientSession<P>>::empty(),
            r.wf(),
    {
        MCPClientState::new()
    }
}

impl<P> MCPClientState<P> {
    /// Well-formedness: server ids are unique.
    pub open spec fn wf(&self) -> bool {
        unique_ids(self@)
    }

    /// An empty registry.
    pub fn new() -> (r: Self)
        ensures
            r@ =~= Seq::<MCPClientSession<P>>::empty(),
            r.wf(),
    {
        MCPClientState { sessions: Vec::new() }
    }

    /// The number of live sessions.
    pub fn len(&self) -> (r: usize)
        ensures
            r == self@.len(),
    {
        self.sessions.len()
    }

    /// Whether a session with this server id is present.
    pub fn contains_server(&self, server_id: &str) -> (r: bool)
        ensures
            r == has_id(self@, server_id@),
    {
        let mut i: usize = 0;
        while i < self.sessions.len()
            invariant
                0 <= i <= self.sessions@.len(),
                forall|k: int| 0 <= k < i ==> self.sessions@[k].server_id@ != server_id@,
            decreases self.sessions@.len() - i,
        {
            if str_eq(self.sessions[i].server_id.as_str(), server_id) {
                return true;
            }
            i = i + 1;
        }
        false
    }

    /// Record a freshly connected session and return its snapshot.
    ///
    /// Fails with `AlreadyConnected`, leaving the registry unchanged, iff
    /// the server id is already present; the presence check and the
    /// insertion are one atomic step on the registry value. On success the
    /// new session is appended and its snapshot returned.
    pub fn complete_connect(
        &mut self,
        server_id: String,
        server_name: String,
        service: P,
        handshake: Option<MCPHandshake>,
    ) -> (r: Result<MCPClientInfo, AppError>)
        requires
            old(self).wf(),
        ensures
            final(self).wf(),
            has_id(old(self)@, server_id@) ==> {
                &&& r matches Err(e) && e matches AppError::AlreadyConnected(m) && m@ == "Server '"@
                    + server_id@ + "' is already connected"@
                &&& final(self)@ == old(self)@
            },
            !has_id(old(self)@, server_id@) ==> {
                &&& final(self)@ == old(self)@.push(
                    (MCPClientSession { server_id, server_name, service, handshake }),
                )
                &&& r matches Ok(info) && is_client_info_of(final(self)@.last(), info)
            },
    {
        if self.contains_server(server_id.as_str()) {
            let msg = str_concat(
                str_concat("Server '", server_id.as_str()).as_str(),
                "' is already connected",
            );
            return Err(AppError::AlreadyConnected(msg));
        }
        let info = MCPClientInfo {
            server_id: server_id.clone(),
            server_name: server_name.clone(),
            protocol_version: extract_protocol_version(handshake.as_ref()),
            capabilities: extract_capabilities(handshake.as_ref()),
            status: String::from_str("connected"),
        };
        let session = MCPClientSession { server_id, server_name, service, handshake };
        proof {
            assert(is_client_info_of(session, info));
        }
        self.sessions.push(session);
        Ok(info)
    }

    /// Remove the session with this server id and hand it back, so that
    /// its transport can be cancelled after the id has already become
    /// unavailable for lookup.
    ///
    /// Fails with `NotFound` iff the id is absent, in which case the
    /// registry is left entirely unchanged.
    pub fn remove_session(&mut self, server_id: &str) -> (r: Result<
        MCPClientSession<P>,
        AppError,
    >)
        requires
            old(self).wf(),
        ensures
            final(self).wf(),
            !has_id(old(self)@, server_id@) ==> {
                &&& r matches Err(e) && e matches AppError::NotFound(m) && m@ == "Server '"@
                    + server_id@ + "' not found"@
                &&& final(self)@ == old(self)@
            },
            has_id(old(self)@, server_id@) ==> {
                let i = id_index(old(self)@, server_id@);
                &&& 0 <= i < old(self)@.len()
                &&& old(self)@[i].server_id@ == server_id@
                &&& r matches Ok(sess) && sess == old(self)@[i]
                &&& final(self)@ == old(self)@.remove(i)
                &&& !has_id(final(self)@, server_id@)
            },
    {
        let ghost old_seq = self.sessions@;
        let mut i: usize = 0;
        while i < self.sessions.len()
            invariant
                self.sessions@ == old_seq,
                old_seq == old(self)@,
                unique_ids(old_seq),
                0 <= i <= old_seq.len(),
                forall|k: int| 0 <= k < i ==> old_seq[k].server_id@ != server_id@,
            decreases old_seq.len() - i,
        {
            if str_eq(self.sessions[i].server_id.as_str(), server_id) {
                proof {
                    lemma_id_index_is::<P>(old_seq, i as int);
                    lemma_unique_remove::<P>(old_seq, i as int);
                    lemma_removed_id_gone::<P>(old_seq, i as int);
                }
                let sess = self.sessions.remove(i);
                return Ok(sess);
            }
            i = i + 1;
        }
        let msg = str_concat(str_concat("Server '", server_id).as_str(), "' not found");
        Err(AppError::NotFound(msg))
    }

    /// Borrow the session with this server id for one dispatched
    /// operation. Fails with `NotFound` iff the id is absent.
    pub fn get_session(&self, server_id: &str) -> (r: Result<&MCPClientSession<P>, AppError>)
        requires
            self.wf(),
        ensures
            !has_id(self@, server_id@) ==> (r matches Err(e) && e matches AppError::NotFound(m)
                && m@ == "Server '"@ + server_id@ + "' not found"@),
            has_id(self@, server_id@) ==> (r matches Ok(sess) && *sess == session_at(
                self@,
                server_id@,
            )),
    {
        let mut i: usize = 0;
        while i < self.sessions.len()
            invariant
                unique_ids(self.sessions@),
                0 <= i <= self.sessions@.len(),
                forall|k: int| 0 <= k < i ==> self.sessions@[k].server_id@ != server_id@,
            decreases self.sessions@.len() - i,
        {
            if str_eq(self.sessions[i].server_id.as_str(), server_id) {
                proof {
                    lemma_id_index_is::<P>(self.sessions@, i as int);
                }
                return Ok(&self.sessions[i]);
            }
            i = i + 1;
        }
        let msg = str_concat(str_concat("Server '", server_id).as_str(), "' not found");
        Err(AppError::NotFound(msg))
    }

    /// Snapshot of all current sessions, with capability and version
    /// fields freshly derived from the handshake data stored at connect
    /// time.
    pub fn connected_clients(&self) -> (r: Vec<MCPClientInfo>)
        ensures
            r@.len() == self@.len(),
            forall|i: int| 0 <= i < self@.len() ==> is_client_info_of(self@[i], #[trigger] r@[i]),
    {
        let mut out: Vec<MCPClientInfo> = Vec::new();
        let mut i: usize = 0;
        while i < self.sessions.len()
            invariant
                0 <= i <= self.sessions@.len(),
                out@.len() == i,
                forall|k: int|
                    0 <= k < i ==> is_client_info_of(self.sessions@[k], #[trigger] out@[k]),
            decreases self.sessions@.len() - i,
        {
            out.push(snapshot_info(&self.sessions[i]));
            i = i + 1;
        }
        out
    }

    /// Atomically drain the registry: afterwards it is empty, and every
    /// formerly live session is handed back, in order, so that each
    /// transport can be cancelled independently.
    pub fn drain_sessions(&mut self) -> (r: Vec<MCPClientSession<P>>)
        ensures
            final(self)@ =~= Seq::<MCPClientSession<P>>::empty(),
            final(self).wf(),
            r@ == old(self)@,
    {
        let mut out: Vec<MCPClientSession<P>> = Vec::new();
        core::mem::swap(&mut self.sessions, &mut out);
        out
    }
}

/// Build the read-only snapshot of one session.
pub fn snapshot_info<P>(s: &MCPClientSession<P>) -> (info: MCPClientInfo)
    ensures
        is_client_info_of(*s, info),
{
    let handshake = match &s.handshake {
        Some(h) => Some(clone_handshake(h)),
        None => None,
    };
    MCPClientInfo {
        server_id: s.server_id.clone(),
        server_name: s.server_name.clone(),
        protocol_version: extract_protocol_version(handshake.as_ref()),
        capabilities: extract_capabilities(handshake.as_ref()),
        status: String::from_str("connected"),
    }
}

/// If the session at index `i` matches `id` and everything before it does
/// not, then `i` is the index the specification functions name.
proof fn lemma_id_index_is<P>(s: Seq<MCPClientSession<P>>, i: int)
    requires
        unique_ids(s),
        0 <= i < s.len(),
    ensures
        id_index(s, s[i].server_id@) == i,
        has_id(s, s[i].server_id@),
        session_at(s, s[i].server_id@) == s[i],
{
    assert(has_id(s, s[i].server_id@));
    let j = id_index(s, s[i].server_id@);
    if j != i {
        if j < i {
            assert(s[j].server_id@ != s[i].server_id@);
        } else {
            assert(s[i].server_id@ != s[j].server_id@);
        }
    }
}

/// Uniqueness of server ids is preserved when a session is removed.
proof fn lemma_unique_remove<P>(s: Seq<MCPClientSession<P>>, i: int)
    requires
        unique_ids(s),
        0 <= i < s.len(),
    ensures
        unique_ids(s.remove(i)),
{
    let t = s.remove(i);
    s.remove_ensures(i);
    assert forall|a: int, b: int| 0 <= a < b < t.len() implies t[a].server_id@ != t[b].server_id@ by {
        let a0 = if a < i { a } else { a + 1 };
        let b0 = if b < i { b } else { b + 1 };
        assert(t[a] == s[a0]);
        assert(t[b] == s[b0]);
        assert(s[a0].server_id@ != s[b0].server_id@);
    }
}

/// Law: after a successful disconnect of `id`, no session with `id` is
/// left, so any subsequent operation on `id` is answered `NotFound`.
pub proof fn lemma_removed_id_gone<P>(s: Seq<MCPClientSession<P>>, i: int)
    requires
        unique_ids(s),
        0 <= i < s.len(),
    ensures
        !has_id(s.remove(i), s[i].server_id@),
{
    let t = s.remove(i);
    s.remove_ensures(i);
    assert forall|k: int| 0 <= k < t.len() implies t[k].server_id@ != s[i].server_id@ by {
        let k0 = if k < i { k } else { k + 1 };
        assert(t[k] == s[k0]);
        if k0 < i {
            assert(s[k0].server_id@ != s[i].server_id@);
        } else {
            assert(s[i].server_id@ != s[k0].server_id@);
        }
    }
}

/// Law: a second connect for the same id, made after a successful connect
/// and with no disconnect in between, finds the id present — so it is
/// rejected with `AlreadyConnected` — and the session stored for the id is
/// still the one the first connect inserted, intact.
pub proof fn lemma_second_connect_rejected<P>(
    s: Seq<MCPClientSession<P>>,
    sess: MCPClientSession<P>,
)
    requires
        unique_ids(s),
        !has_id(s, sess.server_id@),
    ensures
        unique_ids(s.push(sess)),
        has_id(s.push(sess), sess.server_id@),
        session_at(s.push(sess), sess.server_id@) == sess,
{
    let t = s.push(sess);
    assert(t[s.len() as int] == sess);
    assert forall|a: int, b: int| 0 <= a < b < t.len() implies t[a].server_id@ != t[b].server_id@ by {
        if b < s.len() {
            assert(t[a] == s[a] && t[b] == s[b]);
        } else {
            assert(t[b] == sess);
            assert(t[a] == s[a]);
            assert(!(s[a].server_id@ == sess.server_id@)) by {
                if s[a].server_id@ == sess.server_id@ {
                    assert(has_id(s, sess.server_id@));
                }
            }
        }
    }
    lemma_id_index_is::<P>(t, s.len() as int);
}

} // verus!
