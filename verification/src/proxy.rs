//! Chat-proxy request shaping: provider endpoints and the outgoing message
//! list. Credentials and the HTTP round trip are left to the caller.

use vstd::prelude::*;
use crate::util::{lemma_suffix_step, str_eq};

verus! {

/// One conversation message handed in by the caller.
pub struct AIMessage {
    pub role: String,
    pub content: String,
}

/// One message of the outgoing chat request.
pub struct OpenAIMessage {
    pub role: String,
    pub content: String,
}

/// The API endpoint serving a provider; unknown providers get the
/// OpenAI-compatible default.
pub open spec fn provider_endpoint(p: Seq<char>) -> Seq<char> {
    if p == "openai"@ {
        "https://api.openai.com/v1/chat/completions"@
    } else if p == "anthropic"@ {
        "https://api.anthropic.com/v1/messages"@
    } else if p == "deepseek"@ {
        "https://api.deepseek.com/v1/chat/completions"@
    } else if p == "groq"@ {
        "https://api.groq.com/openai/v1/chat/completions"@
    } else if p == "openrouter"@ {
        "https://openrouter.ai/api/v1/chat/completions"@
    } else {
        "https://api.openai.com/v1/chat/completions"@
    }
}

/// Get the API endpoint for a provider.
pub fn get_provider_endpoint(provider: &str) -> (r: &'static str)
    ensures
        r@ == provider_endpoint(provider@),
{
    if str_eq(provider, "openai") {
        "https://api.openai.com/v1/chat/completions"
    } else if str_eq(provider, "anthropic") {
        "https://api.anthropic.com/v1/messages"
    } else if str_eq(provider, "deepseek") {
        "https://api.deepseek.com/v1/chat/completions"
    } else if str_eq(provider, "groq") {
        "https://api.groq.com/openai/v1/chat/completions"
    } else if str_eq(provider, "openrouter") {
        "https://openrouter.ai/api/v1/chat/completions"
    } else {
        "https://api.openai.com/v1/chat/completions"
    }
}

/// How one conversation message appears in the outgoing request.
pub open spec fn chat_message_of(m: AIMessage, o: OpenAIMessage) -> bool {
    &&& o.role == m.role
    &&& o.content == m.content
}

/// Build the outgoing message list: the system prompt first, when given,
/// then every conversation message in order.
pub fn build_chat_messages(messages: Vec<AIMessage>, system_prompt: Option<String>) -> (r: Vec<
    OpenAIMessage,
>)
    ensures
        system_prompt matches Some(s) ==> {
            &&& r@.len() == messages@.len() + 1
            &&& r@[0].role@ == "system"@
            &&& r@[0].content == s
            &&& (forall|i: int|
                0 <= i < messages@.len() ==> chat_message_of(messages@[i], #[trigger] r@[i + 1]))
        },
        system_prompt is None ==> {
            &&& r@.len() == messages@.len()
            &&& (forall|i: int|
                0 <= i < messages@.len() ==> chat_message_of(messages@[i], #[trigger] r@[i]))
        },
{
    let ghost orig = messages@;
    let mut out: Vec<OpenAIMessage> = Vec::new();
    let ghost base: int = if system_prompt is Some {
        1
    } else {
        0
    };
    if let Some(system) = system_prompt {
        out.push(OpenAIMessage { role: String::from_str("system"), content: system });
    }
    let mut items = messages;
    proof {
        assert(items@ =~= orig.skip(0));
    }
    while items.len() > 0
        invariant
            0 <= out@.len() - base,
            out@.len() - base + items@.len() == orig.len(),
            items@ == orig.skip(out@.len() - base),
            base == 0 || base == 1,
            base == 1 <==> system_prompt is Some,
            base == 1 ==> out@.len() >= 1 && out@[0].role@ == "system"@ && Some(out@[0].content)
                == system_prompt,
            forall|k: int|
                0 <= k < out@.len() - base ==> chat_message_of(orig[k], #[trigger] out@[base + k]),
        decreases items@.len(),
    {
        let ghost j = out@.len() - base;
        let item = items.remove(0);
        proof {
            lemma_suffix_step(orig, j);
            assert(item == orig[j]);
            assert(items@ == orig.skip(j + 1));
        }
        let AIMessage { role, content } = item;
        out.push(OpenAIMessage { role, content });
    }
    proof {
        if system_prompt is Some {
            assert forall|i: int| 0 <= i < orig.len() implies chat_message_of(
                orig[i],
                #[trigger] out@[i + 1],
            ) by {
                assert(chat_message_of(orig[i], out@[base + i]));
            }
        } else {
            assert forall|i: int| 0 <= i < orig.len() implies chat_message_of(
                orig[i],
                #[trigger] out@[i],
            ) by {
                assert(chat_message_of(orig[i], out@[base + i]));
            }
        }
    }
    out
}

} // verus!
