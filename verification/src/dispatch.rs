//! Operation dispatch: the typed halves of each remote operation.
//!
//! Every operation follows one shape: look the session up in the registry
//! (`MCPClientState::get_session`, which answers `NotFound` for an unknown
//! id), perform one remote call against its peer, and map the result
//! through the functions here. The mappings are total: an empty catalog or
//! an empty content list maps to an empty result, never to an error.

use vstd::prelude::*;
use crate::content::{
    convert_prompt_content, convert_raw_content, convert_resource_contents, exclusive_payload,
    prompt_converts_to, prompt_message_converts_to, raw_converts_to, resource_converts_to,
    role_name, role_to_string,
};
use crate::json::{json_is_object, object_map_of, value_into_object};
use crate::util::lemma_suffix_step;
use crate::model::{
    MCPContent, MCPPromptArgument, MCPPromptArgumentRecord, MCPPromptGetResult, MCPPromptInfo,
    MCPPromptMessage, MCPPromptRecord, MCPRawContent, MCPRawPromptMessage, MCPResourceContent,
    MCPResourceContents, MCPResourceInfo, MCPResourceReadResult, MCPResourceRecord,
    MCPToolCallResult, MCPToolInfo, MCPToolRecord,
};

verus! {

/// Whether a tool-call argument payload survives the lenient coercion:
/// only a present JSON object does.
pub open spec fn spec_coerce_succeeds(arguments: Option<serde_json::Value>) -> bool {
    arguments matches Some(v) && json_is_object(v)
}

/// Lenient coercion of tool-call arguments: a JSON object is passed on as
/// the very argument map it holds; any non-object value (arrays, scalars,
/// `null` included) is treated as "no arguments" rather than rejected.
pub fn coerce_tool_arguments(arguments: Option<serde_json::Value>) -> (r: Option<
    serde_json::Map<String, serde_json::Value>,
>)
    ensures
        r is Some <==> spec_coerce_succeeds(arguments),
        r matches Some(m) ==> (arguments matches Some(v) && m == object_map_of(v)),
{
    match arguments {
        Some(v) => value_into_object(v),
        None => None,
    }
}

/// Law: a tool call whose `arguments` value is not a JSON object (an
/// array, a scalar, `null`) coerces to the same argument payload as a call
/// with absent arguments — both coerce to none, so the same empty argument
/// payload is sent.
pub proof fn lemma_non_object_arguments_like_absent(v: serde_json::Value)
    requires
        !json_is_object(v),
    ensures
        !spec_coerce_succeeds(Some(v)),
        !spec_coerce_succeeds(None::<serde_json::Value>),
{
}

/// Normalize the outcome of a completed tool-call round trip. `success`
/// reflects that the round trip completed; a remote tool-level error
/// surfaces through `is_error`, which defaults to `false` when the peer
/// left it unspecified.
pub fn normalize_tool_call(content: Vec<MCPRawContent>, is_error: Option<bool>) -> (r:
    MCPToolCallResult)
    ensures
        r.success == true,
        r.is_error == (is_error matches Some(true)),
        r.content@.len() == content@.len(),
        forall|i: int|
            0 <= i < content@.len() ==> raw_converts_to(content@[i], #[trigger] r.content@[i])
                && exclusive_payload(r.content@[i]),
{
    let ghost orig = content@;
    let mut items = content;
    let mut out: Vec<MCPContent> = Vec::new();
    while items.len() > 0
        invariant
            out@.len() + items@.len() == orig.len(),
            items@ == orig.skip(out@.len() as int),
            forall|k: int|
                0 <= k < out@.len() ==> raw_converts_to(orig[k], #[trigger] out@[k])
                    && exclusive_payload(out@[k]),
        decreases items@.len(),
    {
        let ghost j = out@.len() as int;
        let item = items.remove(0);
        proof {
            lemma_suffix_step(orig, j);
            assert(item == orig[j]);
            assert(items@ == orig.skip(j + 1));
        }
        out.push(convert_raw_content(item));
    }
    let err = match is_error {
        Some(b) => b,
        None => false,
    };
    MCPToolCallResult { success: true, content: out, is_error: err }
}

/// Normalize the contents returned for one read resource: the peer may
/// return any number of entries and each is kept, in order.
pub fn normalize_resource_read(contents: Vec<MCPResourceContents>) -> (r: MCPResourceReadResult)
    ensures
        r.contents@.len() == contents@.len(),
        forall|i: int|
            0 <= i < contents@.len() ==> resource_converts_to(
                contents@[i],
                #[trigger] r.contents@[i],
            ),
{
    let ghost orig = contents@;
    let mut items = contents;
    let mut out: Vec<MCPResourceContent> = Vec::new();
    while items.len() > 0
        invariant
            out@.len() + items@.len() == orig.len(),
            items@ == orig.skip(out@.len() as int),
            forall|k: int|
                0 <= k < out@.len() ==> resource_converts_to(orig[k], #[trigger] out@[k]),
        decreases items@.len(),
    {
        let ghost j = out@.len() as int;
        let item = items.remove(0);
        proof {
            lemma_suffix_step(orig, j);
            assert(item == orig[j]);
            assert(items@ == orig.skip(j + 1));
        }
        out.push(convert_resource_contents(item));
    }
    MCPResourceReadResult { contents: out }
}

/// Normalize a fetched prompt: the description is kept as the peer sent
/// it, and each message's role and content are normalized in order.
pub fn normalize_prompt_get(description: Option<String>, messages: Vec<MCPRawPromptMessage>) -> (r:
    MCPPromptGetResult)
    ensures
        r.description == description,
        r.messages@.len() == messages@.len(),
        forall|i: int|
            0 <= i < messages@.len() ==> prompt_message_converts_to(
                messages@[i],
                #[trigger] r.messages@[i],
            ),
{
    let ghost orig = messages@;
    let mut items = messages;
    let mut out: Vec<MCPPromptMessage> = Vec::new();
    while items.len() > 0
        invariant
            out@.len() + items@.len() == orig.len(),
            items@ == orig.skip(out@.len() as int),
            forall|k: int|
                0 <= k < out@.len() ==> prompt_message_converts_to(orig[k], #[trigger] out@[k]),
        decreases items@.len(),
    {
        let ghost j = out@.len() as int;
        let item = items.remove(0);
        proof {
            lemma_suffix_step(orig, j);
            assert(item == orig[j]);
            assert(items@ == orig.skip(j + 1));
        }
        let role = role_to_string(item.role);
        let content = convert_prompt_content(item.content);
        out.push(MCPPromptMessage { role, content });
    }
    MCPPromptGetResult { description, messages: out }
}

/// How a published tool descriptor is presented to callers.
pub open spec fn tool_info_of(rec: MCPToolRecord, out: MCPToolInfo) -> bool {
    &&& out.name == rec.name
    &&& out.description == rec.description
    &&& out.input_schema == rec.input_schema
}

/// Present a peer's tool catalog: every published tool, in order; an empty
/// catalog yields an empty list, never an error.
pub fn normalize_tool_catalog(records: Vec<MCPToolRecord>) -> (r: Vec<MCPToolInfo>)
    ensures
        r@.len() == records@.len(),
        forall|i: int| 0 <= i < records@.len() ==> tool_info_of(records@[i], #[trigger] r@[i]),
{
    let ghost orig = records@;
    let mut items = records;
    let mut out: Vec<MCPToolInfo> = Vec::new();
    while items.len() > 0
        invariant
            out@.len() + items@.len() == orig.len(),
            items@ == orig.skip(out@.len() as int),
            forall|k: int| 0 <= k < out@.len() ==> tool_info_of(orig[k], #[trigger] out@[k]),
        decreases items@.len(),
    {
        let ghost j = out@.len() as int;
        let item = items.remove(0);
        proof {
            lemma_suffix_step(orig, j);
            assert(item == orig[j]);
            assert(items@ == orig.skip(j + 1));
        }
        let MCPToolRecord { name, description, input_schema } = item;
        out.push(MCPToolInfo { name, description, input_schema });
    }
    out
}

/// How a published resource descriptor is presented to callers.
pub open spec fn resource_info_of(rec: MCPResourceRecord, out: MCPResourceInfo) -> bool {
    &&& out.uri == rec.uri
    &&& out.name == rec.name
    &&& out.description == rec.description
    &&& out.mime_type == rec.mime_type
}

/// Present a peer's resource catalog: every published resource, in order;
/// an empty catalog yields an empty list, never an error.
pub fn normalize_resource_catalog(records: Vec<MCPResourceRecord>) -> (r: Vec<MCPResourceInfo>)
    ensures
        r@.len() == records@.len(),
        forall|i: int| 0 <= i < records@.len() ==> resource_info_of(records@[i], #[trigger] r@[i]),
{
    let ghost orig = records@;
    let mut items = records;
    let mut out: Vec<MCPResourceInfo> = Vec::new();
    while items.len() > 0
        invariant
            out@.len() + items@.len() == orig.len(),
            items@ == orig.skip(out@.len() as int),
            forall|k: int| 0 <= k < out@.len() ==> resource_info_of(orig[k], #[trigger] out@[k]),
        decreases items@.len(),
    {
        let ghost j = out@.len() as int;
        let item = items.remove(0);
        proof {
            lemma_suffix_step(orig, j);
            assert(item == orig[j]);
            assert(items@ == orig.skip(j + 1));
        }
        let MCPResourceRecord { uri, name, description, mime_type } = item;
        out.push(MCPResourceInfo { uri, name, description, mime_type });
    }
    out
}

/// How one published prompt argument is presented to callers: `required`
/// defaults to `false` when the peer left it unspecified.
pub open spec fn prompt_argument_of(rec: MCPPromptArgumentRecord, out: MCPPromptArgument) -> bool {
    &&& out.name == rec.name
    &&& out.description == rec.description
    &&& out.required == (rec.required matches Some(true))
}

/// How a published prompt descriptor is presented to callers.
pub open spec fn prompt_info_of(rec: MCPPromptRecord, out: MCPPromptInfo) -> bool {
    &&& out.name == rec.name
    &&& out.description == rec.description
    &&& (out.arguments is Some <==> rec.arguments is Some)
    &&& (rec.arguments matches Some(args) ==> out.arguments matches Some(outs) && outs@.len()
        == args@.len() && (forall|i: int|
        0 <= i < args@.len() ==> prompt_argument_of(args@[i], #[trigger] outs@[i])))
}

/// Present one published prompt argument.
pub fn normalize_prompt_argument(rec: MCPPromptArgumentRecord) -> (r: MCPPromptArgument)
    ensures
        prompt_argument_of(rec, r),
{
    let MCPPromptArgumentRecord { name, description, required } = rec;
    let req = match required {
        Some(b) => b,
        None => false,
    };
    MCPPromptArgument { name, description, required: req }
}

/// Present a peer's prompt catalog: every published prompt, in order; an
/// empty catalog yields an empty list, never an error.
pub fn normalize_prompt_catalog(records: Vec<MCPPromptRecord>) -> (r: Vec<MCPPromptInfo>)
    ensures
        r@.len() == records@.len(),
        forall|i: int| 0 <= i < records@.len() ==> prompt_info_of(records@[i], #[trigger] r@[i]),
{
    let ghost orig = records@;
    let mut items = records;
    let mut out: Vec<MCPPromptInfo> = Vec::new();
    while items.len() > 0
        invariant
            out@.len() + items@.len() == orig.len(),
            items@ == orig.skip(out@.len() as int),
            forall|k: int| 0 <= k < out@.len() ==> prompt_info_of(orig[k], #[trigger] out@[k]),
        decreases items@.len(),
    {
        let ghost j = out@.len() as int;
        let item = items.remove(0);
        proof {
            lemma_suffix_step(orig, j);
            assert(item == orig[j]);
            assert(items@ == orig.skip(j + 1));
        }
        let MCPPromptRecord { name, description, arguments } = item;
        let args = match arguments {
            Some(arg_records) => {
                let ghost arg_orig = arg_records@;
                let mut arg_items = arg_records;
                let mut arg_out: Vec<MCPPromptArgument> = Vec::new();
                while arg_items.len() > 0
                    invariant
                        arg_out@.len() + arg_items@.len() == arg_orig.len(),
                        arg_items@ == arg_orig.skip(arg_out@.len() as int),
                        forall|k: int|
                            0 <= k < arg_out@.len() ==> prompt_argument_of(
                                arg_orig[k],
                                #[trigger] arg_out@[k],
                            ),
                    decreases arg_items@.len(),
                {
                    let ghost aj = arg_out@.len() as int;
                    let arg = arg_items.remove(0);
                    proof {
                        lemma_suffix_step(arg_orig, aj);
                        assert(arg == arg_orig[aj]);
                        assert(arg_items@ == arg_orig.skip(aj + 1));
                    }
                    arg_out.push(normalize_prompt_argument(arg));
                }
                Some(arg_out)
            },
            None => None,
        };
        out.push(MCPPromptInfo { name, description, arguments: args });
    }
    out
}

} // verus!
