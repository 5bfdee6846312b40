//! Data model of the session manager.
//!
//! The peer's raw protocol payloads are recorded as the library's own
//! enums ([`MCPRawContent`], [`MCPResourceContents`], [`MCPPromptContent`],
//! [`MCPPromptRole`] and the catalog records), holding as plain values
//! exactly what the normalizer reads of them. The flat result types
//! ([`MCPContent`] and the descriptor/result structs) are what callers
//! receive.

use vstd::prelude::*;
use crate::capabilities::MCPServerCapabilities;

verus! {

/// Session snapshot returned by connect and by the client listing.
pub struct MCPClientInfo {
    pub server_id: String,
    pub server_name: String,
    pub protocol_version: Option<String>,
    pub capabilities: MCPServerCapabilities,
    pub status: String,
}

/// The contents of one embedded or read resource: a text payload or a
/// binary (blob) payload, never both.
pub enum MCPResourceContents {
    Text { uri: String, mime_type: Option<String>, text: String },
    Blob { uri: String, mime_type: Option<String>, blob: String },
}

/// One raw content item as returned by tool calls.
pub enum MCPRawContent {
    Text { text: String },
    Image { data: String, mime_type: String },
    Audio { data: String, mime_type: String },
    Resource { resource: MCPResourceContents },
    ResourceLink { uri: String, mime_type: Option<String> },
}

/// One raw content item of a prompt message.
pub enum MCPPromptContent {
    Text { text: String },
    Image { data: String, mime_type: String },
    Audio { data: String, mime_type: String },
    Resource { resource: MCPResourceContents },
    ResourceLink { uri: String, mime_type: Option<String> },
}

/// Role of a prompt message: a closed two-value set. A third role is a
/// protocol-level contract violation and cannot be represented.
#[derive(Debug, PartialEq, Eq, Structural, Clone, Copy)]
pub enum MCPPromptRole {
    User,
    Assistant,
}

/// One raw prompt message: a role and a content item.
pub struct MCPRawPromptMessage {
    pub role: MCPPromptRole,
    pub content: MCPPromptContent,
}

/// Normalized content item.
pub struct MCPContent {
    pub content_type: String,
    pub text: Option<String>,
    pub data: Option<String>,
    pub mime_type: Option<String>,
}

/// Tool descriptor published by a peer, as the library reads it.
pub struct MCPToolRecord {
    pub name: String,
    pub description: Option<String>,
    pub input_schema: Option<serde_json::Value>,
}

/// Tool information handed to callers.
pub struct MCPToolInfo {
    pub name: String,
    pub description: Option<String>,
    pub input_schema: Option<serde_json::Value>,
}

/// Resource descriptor published by a peer, as the library reads it.
pub struct MCPResourceRecord {
    pub uri: String,
    pub name: String,
    pub description: Option<String>,
    pub mime_type: Option<String>,
}

/// Resource information handed to callers.
pub struct MCPResourceInfo {
    pub uri: String,
    pub name: String,
    pub description: Option<String>,
    pub mime_type: Option<String>,
}

/// Prompt argument descriptor published by a peer; `required` may be left
/// unspecified.
pub struct MCPPromptArgumentRecord {
    pub name: String,
    pub description: Option<String>,
    pub required: Option<bool>,
}

/// Prompt descriptor published by a peer, as the library reads it.
pub struct MCPPromptRecord {
    pub name: String,
    pub description: Option<String>,
    pub arguments: Option<Vec<MCPPromptArgumentRecord>>,
}

/// Prompt argument handed to callers; `required` defaults to `false` when
/// the peer left it unspecified.
pub struct MCPPromptArgument {
    pub name: String,
    pub description: Option<String>,
    pub required: bool,
}

/// Prompt information handed to callers.
pub struct MCPPromptInfo {
    pub name: String,
    pub description: Option<String>,
    pub arguments: Option<Vec<MCPPromptArgument>>,
}

/// Result of a tool call. `success` reflects local round-trip success;
/// remote tool-level errors surface through `is_error` and the content.
pub struct MCPToolCallResult {
    pub success: bool,
    pub content: Vec<MCPContent>,
    pub is_error: bool,
}

/// One normalized resource content entry.
pub struct MCPResourceContent {
    pub uri: String,
    pub mime_type: Option<String>,
    pub text: Option<String>,
    pub blob: Option<String>,
}

/// Result of reading a resource.
pub struct MCPResourceReadResult {
    pub contents: Vec<MCPResourceContent>,
}

/// One normalized prompt message.
pub struct MCPPromptMessage {
    pub role: String,
    pub content: MCPContent,
}

/// Result of fetching a prompt.
pub struct MCPPromptGetResult {
    pub description: Option<String>,
    pub messages: Vec<MCPPromptMessage>,
}

/// Parameters of a connect request.
pub struct ConnectMCPServerParams {
    pub server_id: String,
    pub server_name: String,
    pub command: String,
    pub args: Option<Vec<String>>,
    pub env: Option<Vec<(String, String)>>,
}

/// Parameters of a tool call.
pub struct CallToolParams {
    pub server_id: String,
    pub tool_name: String,
    pub arguments: Option<serde_json::Value>,
}

/// Parameters of a resource read.
pub struct ReadResourceParams {
    pub server_id: String,
    pub uri: String,
}

/// Parameters of a prompt fetch.
pub struct GetPromptParams {
    pub server_id: String,
    pub prompt_name: String,
    pub arguments: Option<Vec<(String, String)>>,
}

} // verus!
