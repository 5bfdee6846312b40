//! Capability extraction from a handshake result.
//!
//! A connected peer's handshake result is recorded as an [`MCPHandshake`]:
//! the negotiated protocol version and which of the four capability
//! sections the peer published. Capability flags are derived from it once,
//! at connect time, and never re-queried afterwards.

use vstd::prelude::*;

verus! {

/// What the library reads of a protocol handshake result: the negotiated
/// protocol version and the presence of each capability section.
pub struct MCPHandshake {
    pub protocol_version: String,
    pub has_tools: bool,
    pub has_resources: bool,
    pub has_prompts: bool,
    pub has_logging: bool,
}

/// Capability flags of a connected peer.
#[derive(Debug, PartialEq, Eq, Structural)]
pub struct MCPServerCapabilities {
    pub tools: bool,
    pub resources: bool,
    pub prompts: bool,
    pub logging: bool,
}

/// The capability flags a handshake result yields: all `false` when the
/// result is absent, otherwise the presence of each section.
pub open spec fn spec_extract_capabilities(h: Option<MCPHandshake>) -> MCPServerCapabilities {
    match h {
        Some(hs) => MCPServerCapabilities {
            tools: hs.has_tools,
            resources: hs.has_resources,
            prompts: hs.has_prompts,
            logging: hs.has_logging,
        },
        None => MCPServerCapabilities { tools: false, resources: false, prompts: false, logging: false },
    }
}

/// Derive capability flags from an optional handshake result. An absent
/// result yields all four flags `false`: a capability is never assumed.
pub fn extract_capabilities(peer_info: Option<&MCPHandshake>) -> (r: MCPServerCapabilities)
    ensures
        peer_info is None ==> r == (MCPServerCapabilities {
            tools: false,
            resources: false,
            prompts: false,
            logging: false,
        }),
        peer_info matches Some(h) ==> r == spec_extract_capabilities(Some(*h)),
{
    match peer_info {
        Some(info) => MCPServerCapabilities {
            tools: info.has_tools,
            resources: info.has_resources,
            prompts: info.has_prompts,
            logging: info.has_logging,
        },
        None => MCPServerCapabilities { tools: false, resources: false, prompts: false, logging: false },
    }
}

/// Extract the protocol version from an optional handshake result.
pub fn extract_protocol_version(peer_info: Option<&MCPHandshake>) -> (r: Option<String>)
    ensures
        r is Some <==> peer_info is Some,
        r matches Some(v) ==> peer_info matches Some(h) && v@ == h.protocol_version@,
{
    match peer_info {
        Some(info) => Some(info.protocol_version.clone()),
        None => None,
    }
}

/// A copy of a handshake record, equal to the original.
pub fn clone_handshake(h: &MCPHandshake) -> (r: MCPHandshake)
    ensures
        r == *h,
{
    MCPHandshake {
        protocol_version: h.protocol_version.clone(),
        has_tools: h.has_tools,
        has_resources: h.has_resources,
        has_prompts: h.has_prompts,
        has_logging: h.has_logging,
    }
}

} // verus!
