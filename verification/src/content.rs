//! Content normalization.
//!
//! Pure mappings from the protocol's content and role variants to the flat
//! [`MCPContent`] representation. Each mapping is an exhaustive match: a
//! new protocol variant fails to compile rather than being dropped.

use vstd::prelude::*;
use crate::model::{
    MCPContent, MCPPromptContent, MCPPromptMessage, MCPPromptRole, MCPRawContent,
    MCPRawPromptMessage, MCPResourceContent, MCPResourceContents,
};

verus! {

/// A normalized content item carries a text payload or a binary payload,
/// never both.
pub open spec fn exclusive_payload(c: MCPContent) -> bool {
    !(c.text is Some && c.data is Some)
}

/// How an embedded resource is rendered as a normalized content item: the
/// text branch fills `text`, the blob branch fills `data`, exhaustively.
pub open spec fn embedded_resource_converts_to(rc: MCPResourceContents, out: MCPContent) -> bool {
    &&& out.content_type@ == "resource"@
    &&& match rc {
        MCPResourceContents::Text { uri, mime_type, text } => {
            &&& out.text == Some(text)
            &&& out.data is None
            &&& out.mime_type == mime_type
        },
        MCPResourceContents::Blob { uri, mime_type, blob } => {
            &&& out.text is None
            &&& out.data == Some(blob)
            &&& out.mime_type == mime_type
        },
    }
}

/// How a raw tool-call content item is normalized.
pub open spec fn raw_converts_to(c: MCPRawContent, out: MCPContent) -> bool {
    match c {
        MCPRawContent::Text { text } => {
            &&& out.content_type@ == "text"@
            &&& out.text == Some(text)
            &&& out.data is None
            &&& out.mime_type is None
        },
        MCPRawContent::Image { data, mime_type } => {
            &&& out.content_type@ == "image"@
            &&& out.text is None
            &&& out.data == Some(data)
            &&& out.mime_type == Some(mime_type)
        },
        MCPRawContent::Audio { data, mime_type } => {
            &&& out.content_type@ == "audio"@
            &&& out.text is None
            &&& out.data == Some(data)
            &&& out.mime_type == Some(mime_type)
        },
        MCPRawContent::Resource { resource } => embedded_resource_converts_to(resource, out),
        MCPRawContent::ResourceLink { uri, mime_type } => {
            &&& out.content_type@ == "resource_link"@
            &&& out.text == Some(uri)
            &&& out.data is None
            &&& out.mime_type == mime_type
        },
    }
}

/// How a prompt-message content item is normalized.
pub open spec fn prompt_converts_to(c: MCPPromptContent, out: MCPContent) -> bool {
    match c {
        MCPPromptContent::Text { text } => {
            &&& out.content_type@ == "text"@
            &&& out.text == Some(text)
            &&& out.data is None
            &&& out.mime_type is None
        },
        MCPPromptContent::Image { data, mime_type } => {
            &&& out.content_type@ == "image"@
            &&& out.text is None
            &&& out.data == Some(data)
            &&& out.mime_type == Some(mime_type)
        },
        MCPPromptContent::Audio { data, mime_type } => {
            &&& out.content_type@ == "audio"@
            &&& out.text is None
            &&& out.data == Some(data)
            &&& out.mime_type == Some(mime_type)
        },
        MCPPromptContent::Resource { resource } => embedded_resource_converts_to(resource, out),
        MCPPromptContent::ResourceLink { uri, mime_type } => {
            &&& out.content_type@ == "resource_link"@
            &&& out.text == Some(uri)
            &&& out.data is None
            &&& out.mime_type == mime_type
        },
    }
}

/// The wire name of a prompt role.
pub open spec fn role_name(r: MCPPromptRole) -> Seq<char> {
    match r {
        MCPPromptRole::User => "user"@,
        MCPPromptRole::Assistant => "assistant"@,
    }
}

/// How one raw prompt message is normalized.
pub open spec fn prompt_message_converts_to(m: MCPRawPromptMessage, out: MCPPromptMessage) -> bool {
    &&& out.role@ == role_name(m.role)
    &&& prompt_converts_to(m.content, out.content)
}

/// How one read-resource contents entry is normalized: a text entry yields
/// `text` populated and `blob` absent; a blob entry yields the reverse;
/// never both.
pub open spec fn resource_converts_to(c: MCPResourceContents, out: MCPResourceContent) -> bool {
    match c {
        MCPResourceContents::Text { uri, mime_type, text } => {
            &&& out.uri == uri
            &&& out.mime_type == mime_type
            &&& out.text == Some(text)
            &&& out.blob is None
        },
        MCPResourceContents::Blob { uri, mime_type, blob } => {
            &&& out.uri == uri
            &&& out.mime_type == mime_type
            &&& out.text is None
            &&& out.blob == Some(blob)
        },
    }
}

/// Normalize one raw tool-call content item.
pub fn convert_raw_content(content: MCPRawContent) -> (r: MCPContent)
    ensures
        raw_converts_to(content, r),
        exclusive_payload(r),
{
    match content {
        MCPRawContent::Text { text } => MCPContent {
            content_type: String::from_str("text"),
            text: Some(text),
            data: None,
            mime_type: None,
        },
        MCPRawContent::Image { data, mime_type } => MCPContent {
            content_type: String::from_str("image"),
            text: None,
            data: Some(data),
            mime_type: Some(mime_type),
        },
        MCPRawContent::Audio { data, mime_type } => MCPContent {
            content_type: String::from_str("audio"),
            text: None,
            data: Some(data),
            mime_type: Some(mime_type),
        },
        MCPRawContent::Resource { resource } => convert_embedded_resource(resource),
        MCPRawContent::ResourceLink { uri, mime_type } => MCPContent {
            content_type: String::from_str("resource_link"),
            text: Some(uri),
            data: None,
            mime_type,
        },
    }
}

/// Normalize one embedded resource, selecting the text or blob branch
/// exhaustively.
pub fn convert_embedded_resource(resource: MCPResourceContents) -> (r: MCPContent)
    ensures
        embedded_resource_converts_to(resource, r),
        exclusive_payload(r),
{
    match resource {
        MCPResourceContents::Text { uri, mime_type, text } => MCPContent {
            content_type: String::from_str("resource"),
            text: Some(text),
            data: None,
            mime_type,
        },
        MCPResourceContents::Blob { uri, mime_type, blob } => MCPContent {
            content_type: String::from_str("resource"),
            text: None,
            data: Some(blob),
            mime_type,
        },
    }
}

/// Normalize one prompt-message content item.
pub fn convert_prompt_content(content: MCPPromptContent) -> (r: MCPContent)
    ensures
        prompt_converts_to(content, r),
        exclusive_payload(r),
{
    match content {
        MCPPromptContent::Text { text } => MCPContent {
            content_type: String::from_str("text"),
            text: Some(text),
            data: None,
            mime_type: None,
        },
        MCPPromptContent::Image { data, mime_type } => MCPContent {
            content_type: String::from_str("image"),
            text: None,
            data: Some(data),
            mime_type: Some(mime_type),
        },
        MCPPromptContent::Audio { data, mime_type } => MCPContent {
            content_type: String::from_str("audio"),
            text: None,
            data: Some(data),
            mime_type: Some(mime_type),
        },
        MCPPromptContent::Resource { resource } => convert_embedded_resource(resource),
        MCPPromptContent::ResourceLink { uri, mime_type } => MCPContent {
            content_type: String::from_str("resource_link"),
            text: Some(uri),
            data: None,
            mime_type,
        },
    }
}

/// Render a prompt role as its wire name: a total, exhaustive two-case
/// mapping.
pub fn role_to_string(role: MCPPromptRole) -> (r: String)
    ensures
        r@ == role_name(role),
{
    match role {
        MCPPromptRole::User => String::from_str("user"),
        MCPPromptRole::Assistant => String::from_str("assistant"),
    }
}

/// Normalize one read-resource contents entry.
pub fn convert_resource_contents(c: MCPResourceContents) -> (r: MCPResourceContent)
    ensures
        resource_converts_to(c, r),
{
    match c {
        MCPResourceContents::Text { uri, mime_type, text } => MCPResourceContent {
            uri,
            mime_type,
            text: Some(text),
            blob: None,
        },
        MCPResourceContents::Blob { uri, mime_type, blob } => MCPResourceContent {
            uri,
            mime_type,
            text: None,
            blob: Some(blob),
        },
    }
}

} // verus!
