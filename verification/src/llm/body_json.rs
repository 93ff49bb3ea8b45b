use vstd::prelude::*;

use crate::llm::anthropic::{AnthropicBody, AnthropicMessage};
use crate::llm::gemini::{GeminiBody, GeminiContent, GeminiPart};
use crate::llm::openai::{OpenAiBody, OpenAiMessage, OpenAiToolCall};
use crate::llm::types::{ContentBlock, ToolDefinition};

verus! {

/// A JSON document as a request body is sent: every member of an object in the order it is
/// written. `Embedded` is JSON text that goes into the document as the value it spells (a tool
/// call's input, a tool's schema).
#[derive(Debug)]
pub enum JsonValue {
    Null,
    Bool(bool),
    Number(u64),
    Str(String),
    Array(Vec<JsonValue>),
    Object(Vec<JsonMember>),
    Embedded(String),
}

/// One member of a JSON object.
#[derive(Debug)]
pub struct JsonMember {
    pub key: String,
    pub value: JsonValue,
}

/// `v` is the string `s`.
pub open spec fn str_is(v: JsonValue, s: Seq<char>) -> bool {
    v matches JsonValue::Str(x) && x@ == s
}

/// `v` is the string `s` when there is one, `null` otherwise.
pub open spec fn opt_str_is(v: JsonValue, o: Option<Seq<char>>) -> bool {
    match o {
        Some(s) => str_is(v, s),
        None => v is Null,
    }
}

/// The members of `v` when it is an object.
pub open spec fn members(v: JsonValue) -> Seq<JsonMember> {
    match v {
        JsonValue::Object(ms) => ms@,
        _ => Seq::empty(),
    }
}

/// The elements of `v` when it is an array.
pub open spec fn elements(v: JsonValue) -> Seq<JsonValue> {
    match v {
        JsonValue::Array(xs) => xs@,
        _ => Seq::empty(),
    }
}

/// `v` is an object whose members carry exactly these keys, in this order.
pub open spec fn object_with(v: JsonValue, keys: Seq<Seq<char>>) -> bool {
    &&& v is Object
    &&& members(v).len() == keys.len()
    &&& forall|i: int| 0 <= i < keys.len() ==> (#[trigger] members(v)[i]).key@ == keys[i]
}

/// The value of the `i`th member of `v`.
pub open spec fn at(v: JsonValue, i: int) -> JsonValue {
    members(v)[i].value
}

fn text(s: &String) -> (v: JsonValue)
    ensures
        str_is(v, s@),
{
    JsonValue::Str(s.clone())
}

fn opt_text(o: &Option<String>) -> (v: JsonValue)
    ensures
        opt_str_is(v, o.deep_view()),
{
    match o {
        Some(s) => JsonValue::Str(s.clone()),
        None => JsonValue::Null,
    }
}

fn member(key: &str, value: JsonValue) -> (m: JsonMember)
    ensures
        m.key@ == key@,
        m.value == value,
{
    JsonMember { key: key.to_owned(), value }
}

/// How a tool is described to a provider: its name and description, and its schema under
/// `schema_key`.
pub open spec fn tool_is(v: JsonValue, t: ToolDefinition, schema_key: Seq<char>) -> bool {
    &&& object_with(v, seq!["name"@, "description"@, schema_key])
    &&& str_is(at(v, 0), t.name@)
    &&& str_is(at(v, 1), t.description@)
    &&& at(v, 2) matches JsonValue::Embedded(s) && s@ == t.input_schema@
}

fn tool_json(t: &ToolDefinition, schema_key: &str) -> (v: JsonValue)
    ensures
        tool_is(v, *t, schema_key@),
{
    let mut ms: Vec<JsonMember> = Vec::new();
    ms.push(member("name", text(&t.name)));
    ms.push(member("description", text(&t.description)));
    ms.push(member(schema_key, JsonValue::Embedded(t.input_schema.clone())));
    JsonValue::Object(ms)
}

/// `v` lists `tools` as a provider wants them, each with its schema under `schema_key`.
pub open spec fn tools_are(v: JsonValue, tools: Seq<ToolDefinition>, schema_key: Seq<char>) -> bool {
    &&& v is Array
    &&& elements(v).len() == tools.len()
    &&& forall|i: int| 0 <= i < tools.len() ==> tool_is(#[trigger] elements(v)[i], tools[i], schema_key)
}

fn tools_json(tools: &Vec<ToolDefinition>, schema_key: &str) -> (v: JsonValue)
    ensures
        tools_are(v, tools@, schema_key@),
{
    let mut xs: Vec<JsonValue> = Vec::new();
    let mut i: usize = 0;
    while i < tools.len()
        invariant
            i <= tools.len(),
            xs.len() == i,
            forall|j: int| 0 <= j < i ==> tool_is(#[trigger] xs@[j], tools@[j], schema_key@),
        decreases tools.len() - i,
    {
        xs.push(tool_json(&tools[i], schema_key));
        i = i + 1;
    }
    JsonValue::Array(xs)
}

/// How a block goes out in a Messages API request.
pub open spec fn anthropic_block_is(v: JsonValue, b: ContentBlock) -> bool {
    match b {
        ContentBlock::Text { text } => {
            &&& object_with(v, seq!["type"@, "text"@])
            &&& str_is(at(v, 0), "text"@)
            &&& str_is(at(v, 1), text@)
        },
        ContentBlock::ToolUse { id, name, input, .. } => {
            &&& object_with(v, seq!["type"@, "id"@, "name"@, "input"@])
            &&& str_is(at(v, 0), "tool_use"@)
            &&& str_is(at(v, 1), id@)
            &&& str_is(at(v, 2), name@)
            &&& at(v, 3) matches JsonValue::Embedded(s) && s@ == input@
        },
        ContentBlock::ToolResult { tool_use_id, content, is_error } => {
            &&& object_with(v, seq!["type"@, "tool_use_id"@, "content"@, "is_error"@])
            &&& str_is(at(v, 0), "tool_result"@)
            &&& str_is(at(v, 1), tool_use_id@)
            &&& str_is(at(v, 2), content@)
            &&& at(v, 3) == JsonValue::Bool(is_error)
        },
        ContentBlock::Thinking { text, signature } => {
            &&& object_with(v, seq!["type"@, "thinking"@, "signature"@])
            &&& str_is(at(v, 0), "thinking"@)
            &&& str_is(at(v, 1), text@)
            &&& opt_str_is(at(v, 2), signature.deep_view())
        },
    }
}

fn anthropic_block_json(b: &ContentBlock) -> (v: JsonValue)
    ensures
        anthropic_block_is(v, *b),
{
    let mut ms: Vec<JsonMember> = Vec::new();
    match b {
        ContentBlock::Text { text: t } => {
            ms.push(member("type", JsonValue::Str("text".to_owned())));
            ms.push(member("text", text(t)));
        },
        ContentBlock::ToolUse { id, name, input, .. } => {
            ms.push(member("type", JsonValue::Str("tool_use".to_owned())));
            ms.push(member("id", text(id)));
            ms.push(member("name", text(name)));
            ms.push(member("input", JsonValue::Embedded(input.clone())));
        },
        ContentBlock::ToolResult { tool_use_id, content, is_error } => {
            ms.push(member("type", JsonValue::Str("tool_result".to_owned())));
            ms.push(member("tool_use_id", text(tool_use_id)));
            ms.push(member("content", text(content)));
            ms.push(member("is_error", JsonValue::Bool(*is_error)));
        },
        ContentBlock::Thinking { text: t, signature } => {
            ms.push(member("type", JsonValue::Str("thinking".to_owned())));
            ms.push(member("thinking", text(t)));
            ms.push(member("signature", opt_text(signature)));
        },
    }
    JsonValue::Object(ms)
}

/// How a message goes out in a Messages API request: its role and its blocks.
pub open spec fn anthropic_message_is(v: JsonValue, m: AnthropicMessage) -> bool {
    &&& object_with(v, seq!["role"@, "content"@])
    &&& str_is(at(v, 0), m.role@)
    &&& at(v, 1) is Array
    &&& elements(at(v, 1)).len() == m.content@.len()
    &&& forall|i: int| 0 <= i < m.content@.len() ==> anthropic_block_is(#[trigger] elements(at(v, 1))[i], m.content@[i])
}

fn anthropic_message_json(m: &AnthropicMessage) -> (v: JsonValue)
    ensures
        anthropic_message_is(v, *m),
{
    let mut xs: Vec<JsonValue> = Vec::new();
    let mut i: usize = 0;
    while i < m.content.len()
        invariant
            i <= m.content.len(),
            xs.len() == i,
            forall|j: int| 0 <= j < i ==> anthropic_block_is(#[trigger] xs@[j], m.content@[j]),
        decreases m.content.len() - i,
    {
        xs.push(anthropic_block_json(&m.content[i]));
        i = i + 1;
    }
    let mut ms: Vec<JsonMember> = Vec::new();
    ms.push(member("role", text(&m.role)));
    ms.push(member("content", JsonValue::Array(xs)));
    JsonValue::Object(ms)
}

/// The Messages API body as JSON: model, token limit, messages and whether to stream, then the
/// system prompt, the tools and the reasoning budget when there are any.
pub open spec fn anthropic_body_is(v: JsonValue, b: AnthropicBody) -> bool {
    let n_system: int = if b.system is Some { 1 } else { 0 };
    let n_tools: int = if b.tools is Some { 1 } else { 0 };
    let n_thinking: int = if b.thinking_budget is Some { 1 } else { 0 };
    let ms = members(v);
    &&& v is Object
    &&& ms.len() == 4 + n_system + n_tools + n_thinking
    &&& ms[0].key@ == "model"@ && str_is(ms[0].value, b.model@)
    &&& ms[1].key@ == "max_tokens"@ && ms[1].value == JsonValue::Number(b.max_tokens as u64)
    &&& ms[2].key@ == "messages"@ && ms[2].value is Array
    &&& elements(ms[2].value).len() == b.messages@.len()
    &&& forall|i: int| 0 <= i < b.messages@.len() ==> anthropic_message_is(#[trigger] elements(ms[2].value)[i], b.messages@[i])
    &&& ms[3].key@ == "stream"@ && ms[3].value == JsonValue::Bool(b.stream)
    &&& b.system matches Some(s) ==> ms[4].key@ == "system"@ && str_is(ms[4].value, s@)
    &&& b.tools matches Some(ts) ==> ms[4 + n_system].key@ == "tools"@ && tools_are(ms[4 + n_system].value, ts@, "input_schema"@)
    &&& b.thinking_budget matches Some(k) ==> {
        let t = ms[4 + n_system + n_tools];
        &&& t.key@ == "thinking"@
        &&& object_with(t.value, seq!["type"@, "budget_tokens"@])
        &&& str_is(at(t.value, 0), "enabled"@)
        &&& at(t.value, 1) == JsonValue::Number(k as u64)
    }
}

/// Renders a Messages API body as JSON.
pub fn anthropic_body_json(b: &AnthropicBody) -> (v: JsonValue)
    ensures
        anthropic_body_is(v, *b),
{
    let mut xs: Vec<JsonValue> = Vec::new();
    let mut i: usize = 0;
    while i < b.messages.len()
        invariant
            i <= b.messages.len(),
            xs.len() == i,
            forall|j: int| 0 <= j < i ==> anthropic_message_is(#[trigger] xs@[j], b.messages@[j]),
        decreases b.messages.len() - i,
    {
        xs.push(anthropic_message_json(&b.messages[i]));
        i = i + 1;
    }
    let mut ms: Vec<JsonMember> = Vec::new();
    ms.push(member("model", text(&b.model)));
    ms.push(member("max_tokens", JsonValue::Number(b.max_tokens as u64)));
    ms.push(member("messages", JsonValue::Array(xs)));
    ms.push(member("stream", JsonValue::Bool(b.stream)));
    match &b.system {
        Some(s) => ms.push(member("system", text(s))),
        None => {},
    }
    match &b.tools {
        Some(ts) => ms.push(member("tools", tools_json(ts, "input_schema"))),
        None => {},
    }
    match b.thinking_budget {
        Some(k) => {
            let mut t: Vec<JsonMember> = Vec::new();
            t.push(member("type", JsonValue::Str("enabled".to_owned())));
            t.push(member("budget_tokens", JsonValue::Number(k as u64)));
            ms.push(member("thinking", JsonValue::Object(t)));
        },
        None => {},
    }
    JsonValue::Object(ms)
}

/// How a tool call goes out in a Chat Completions message.
pub open spec fn openai_call_is(v: JsonValue, c: OpenAiToolCall) -> bool {
    &&& object_with(v, seq!["id"@, "type"@, "function"@])
    &&& str_is(at(v, 0), c.id@)
    &&& str_is(at(v, 1), "function"@)
    &&& object_with(at(v, 2), seq!["name"@, "arguments"@])
    &&& str_is(at(at(v, 2), 0), c.name@)
    &&& str_is(at(at(v, 2), 1), c.arguments@)
}

fn openai_call_json(c: &OpenAiToolCall) -> (v: JsonValue)
    ensures
        openai_call_is(v, *c),
{
    let mut f: Vec<JsonMember> = Vec::new();
    f.push(member("name", text(&c.name)));
    f.push(member("arguments", text(&c.arguments)));
    let mut ms: Vec<JsonMember> = Vec::new();
    ms.push(member("id", text(&c.id)));
    ms.push(member("type", JsonValue::Str("function".to_owned())));
    ms.push(member("function", JsonValue::Object(f)));
    JsonValue::Object(ms)
}

/// How a message goes out in a Chat Completions request; a message without tool calls leaves
/// `tool_calls` out, and a message without text sends `null` content.
pub open spec fn openai_message_is(v: JsonValue, m: OpenAiMessage) -> bool {
    match m {
        OpenAiMessage::System { content } => {
            &&& object_with(v, seq!["role"@, "content"@])
            &&& str_is(at(v, 0), "system"@)
            &&& str_is(at(v, 1), content@)
        },
        OpenAiMessage::Chat { role, content, tool_calls } => {
            &&& if tool_calls@.len() == 0 {
                object_with(v, seq!["role"@, "content"@])
            } else {
                &&& object_with(v, seq!["role"@, "content"@, "tool_calls"@])
                &&& at(v, 2) is Array
                &&& elements(at(v, 2)).len() == tool_calls@.len()
                &&& forall|i: int| 0 <= i < tool_calls@.len() ==> openai_call_is(#[trigger] elements(at(v, 2))[i], tool_calls@[i])
            }
            &&& str_is(at(v, 0), role@)
            &&& opt_str_is(at(v, 1), content.deep_view())
        },
        OpenAiMessage::Tool { tool_call_id, content } => {
            &&& object_with(v, seq!["role"@, "tool_call_id"@, "content"@])
            &&& str_is(at(v, 0), "tool"@)
            &&& str_is(at(v, 1), tool_call_id@)
            &&& str_is(at(v, 2), content@)
        },
    }
}

fn openai_message_json(m: &OpenAiMessage) -> (v: JsonValue)
    ensures
        openai_message_is(v, *m),
{
    let mut ms: Vec<JsonMember> = Vec::new();
    match m {
        OpenAiMessage::System { content } => {
            ms.push(member("role", JsonValue::Str("system".to_owned())));
            ms.push(member("content", text(content)));
        },
        OpenAiMessage::Chat { role, content, tool_calls } => {
            ms.push(member("role", text(role)));
            ms.push(member("content", opt_text(content)));
            if tool_calls.len() > 0 {
                let mut xs: Vec<JsonValue> = Vec::new();
                let mut i: usize = 0;
                while i < tool_calls.len()
                    invariant
                        i <= tool_calls.len(),
                        xs.len() == i,
                        forall|j: int| 0 <= j < i ==> openai_call_is(#[trigger] xs@[j], tool_calls@[j]),
                    decreases tool_calls.len() - i,
                {
                    xs.push(openai_call_json(&tool_calls[i]));
                    i = i + 1;
                }
                ms.push(member("tool_calls", JsonValue::Array(xs)));
            }
        },
        OpenAiMessage::Tool { tool_call_id, content } => {
            ms.push(member("role", JsonValue::Str("tool".to_owned())));
            ms.push(member("tool_call_id", text(tool_call_id)));
            ms.push(member("content", text(content)));
        },
    }
    JsonValue::Object(ms)
}

/// How a tool is offered in a Chat Completions request: as a function.
pub open spec fn openai_tool_is(v: JsonValue, t: ToolDefinition) -> bool {
    &&& object_with(v, seq!["type"@, "function"@])
    &&& str_is(at(v, 0), "function"@)
    &&& tool_is(at(v, 1), t, "parameters"@)
}

/// The Chat Completions body as JSON: model, token limit and messages, then the tools when
/// there are any, then, for a streamed request, `stream` and the request to report usage.
pub open spec fn openai_body_is(v: JsonValue, b: OpenAiBody) -> bool {
    let n_tools: int = if b.tools is Some { 1 } else { 0 };
    let n_stream: int = if b.stream { 2 } else { 0 };
    let ms = members(v);
    &&& v is Object
    &&& ms.len() == 3 + n_tools + n_stream
    &&& ms[0].key@ == "model"@ && str_is(ms[0].value, b.model@)
    &&& ms[1].key@ == "max_tokens"@ && ms[1].value == JsonValue::Number(b.max_tokens as u64)
    &&& ms[2].key@ == "messages"@ && ms[2].value is Array
    &&& elements(ms[2].value).len() == b.messages@.len()
    &&& forall|i: int| 0 <= i < b.messages@.len() ==> openai_message_is(#[trigger] elements(ms[2].value)[i], b.messages@[i])
    &&& b.tools matches Some(ts) ==> {
        &&& ms[3].key@ == "tools"@ && ms[3].value is Array
        &&& elements(ms[3].value).len() == ts@.len()
        &&& forall|i: int| 0 <= i < ts@.len() ==> openai_tool_is(#[trigger] elements(ms[3].value)[i], ts@[i])
    }
    &&& b.stream ==> {
        &&& ms[3 + n_tools].key@ == "stream"@ && ms[3 + n_tools].value == JsonValue::Bool(true)
        &&& ms[4 + n_tools].key@ == "stream_options"@
        &&& object_with(ms[4 + n_tools].value, seq!["include_usage"@])
        &&& at(ms[4 + n_tools].value, 0) == JsonValue::Bool(true)
    }
}

/// Renders a Chat Completions body as JSON.
pub fn openai_body_json(b: &OpenAiBody) -> (v: JsonValue)
    ensures
        openai_body_is(v, *b),
{
    let mut xs: Vec<JsonValue> = Vec::new();
    let mut i: usize = 0;
    while i < b.messages.len()
        invariant
            i <= b.messages.len(),
            xs.len() == i,
            forall|j: int| 0 <= j < i ==> openai_message_is(#[trigger] xs@[j], b.messages@[j]),
        decreases b.messages.len() - i,
    {
        xs.push(openai_message_json(&b.messages[i]));
        i = i + 1;
    }
    let mut ms: Vec<JsonMember> = Vec::new();
    ms.push(member("model", text(&b.model)));
    ms.push(member("max_tokens", JsonValue::Number(b.max_tokens as u64)));
    ms.push(member("messages", JsonValue::Array(xs)));
    match &b.tools {
        Some(ts) => {
            let mut tools: Vec<JsonValue> = Vec::new();
            let mut i: usize = 0;
            while i < ts.len()
                invariant
                    i <= ts.len(),
                    tools.len() == i,
                    forall|j: int| 0 <= j < i ==> openai_tool_is(#[trigger] tools@[j], ts@[j]),
                decreases ts.len() - i,
            {
                let mut f: Vec<JsonMember> = Vec::new();
                f.push(member("type", JsonValue::Str("function".to_owned())));
                f.push(member("function", tool_json(&ts[i], "parameters")));
                tools.push(JsonValue::Object(f));
                i = i + 1;
            }
            ms.push(member("tools", JsonValue::Array(tools)));
        },
        None => {},
    }
    if b.stream {
        let mut o: Vec<JsonMember> = Vec::new();
        o.push(member("include_usage", JsonValue::Bool(true)));
        ms.push(member("stream", JsonValue::Bool(true)));
        ms.push(member("stream_options", JsonValue::Object(o)));
    }
    JsonValue::Object(ms)
}

/// How a part goes out in a `streamGenerateContent` request; a function call carries its
/// thought signature only when it has one.
pub open spec fn gemini_part_is(v: JsonValue, p: GeminiPart) -> bool {
    match p {
        GeminiPart::Text { text } => {
            &&& object_with(v, seq!["text"@])
            &&& str_is(at(v, 0), text@)
        },
        GeminiPart::FunctionCall { name, args, thought_signature } => {
            &&& match thought_signature {
                Some(sig) => object_with(v, seq!["functionCall"@, "thoughtSignature"@]) && str_is(at(v, 1), sig@),
                None => object_with(v, seq!["functionCall"@]),
            }
            &&& object_with(at(v, 0), seq!["name"@, "args"@])
            &&& str_is(at(at(v, 0), 0), name@)
            &&& at(at(v, 0), 1) matches JsonValue::Embedded(s) && s@ == args@
        },
        GeminiPart::FunctionResponse { name, content } => {
            &&& object_with(v, seq!["functionResponse"@])
            &&& object_with(at(v, 0), seq!["name"@, "response"@])
            &&& str_is(at(at(v, 0), 0), name@)
            &&& object_with(at(at(v, 0), 1), seq!["content"@])
            &&& str_is(at(at(at(v, 0), 1), 0), content@)
        },
    }
}

fn gemini_part_json(p: &GeminiPart) -> (v: JsonValue)
    ensures
        gemini_part_is(v, *p),
{
    let mut ms: Vec<JsonMember> = Vec::new();
    match p {
        GeminiPart::Text { text: t } => {
            ms.push(member("text", text(t)));
        },
        GeminiPart::FunctionCall { name, args, thought_signature } => {
            let mut call: Vec<JsonMember> = Vec::new();
            call.push(member("name", text(name)));
            call.push(member("args", JsonValue::Embedded(args.clone())));
            ms.push(member("functionCall", JsonValue::Object(call)));
            match thought_signature {
                Some(sig) => ms.push(member("thoughtSignature", text(sig))),
                None => {},
            }
        },
        GeminiPart::FunctionResponse { name, content } => {
            let mut response: Vec<JsonMember> = Vec::new();
            response.push(member("content", text(content)));
            let mut call: Vec<JsonMember> = Vec::new();
            call.push(member("name", text(name)));
            call.push(member("response", JsonValue::Object(response)));
            ms.push(member("functionResponse", JsonValue::Object(call)));
        },
    }
    JsonValue::Object(ms)
}

/// How a turn goes out in a `streamGenerateContent` request: its role and its parts.
pub open spec fn gemini_content_is(v: JsonValue, c: GeminiContent) -> bool {
    &&& object_with(v, seq!["role"@, "parts"@])
    &&& str_is(at(v, 0), c.role@)
    &&& at(v, 1) is Array
    &&& elements(at(v, 1)).len() == c.parts@.len()
    &&& forall|i: int| 0 <= i < c.parts@.len() ==> gemini_part_is(#[trigger] elements(at(v, 1))[i], c.parts@[i])
}

fn gemini_content_json(c: &GeminiContent) -> (v: JsonValue)
    ensures
        gemini_content_is(v, *c),
{
    let mut xs: Vec<JsonValue> = Vec::new();
    let mut i: usize = 0;
    while i < c.parts.len()
        invariant
            i <= c.parts.len(),
            xs.len() == i,
            forall|j: int| 0 <= j < i ==> gemini_part_is(#[trigger] xs@[j], c.parts@[j]),
        decreases c.parts.len() - i,
    {
        xs.push(gemini_part_json(&c.parts[i]));
        i = i + 1;
    }
    let mut ms: Vec<JsonMember> = Vec::new();
    ms.push(member("role", text(&c.role)));
    ms.push(member("parts", JsonValue::Array(xs)));
    JsonValue::Object(ms)
}

/// The `streamGenerateContent` body as JSON: the turns, then the system instruction and the
/// function declarations when there are any, then the output token limit.
pub open spec fn gemini_body_is(v: JsonValue, b: GeminiBody) -> bool {
    let n_system: int = if b.system_instruction is Some { 1 } else { 0 };
    let n_tools: int = if b.tools is Some { 1 } else { 0 };
    let ms = members(v);
    let last = ms[1 + n_system + n_tools];
    &&& v is Object
    &&& ms.len() == 2 + n_system + n_tools
    &&& ms[0].key@ == "contents"@ && ms[0].value is Array
    &&& elements(ms[0].value).len() == b.contents@.len()
    &&& forall|i: int| 0 <= i < b.contents@.len() ==> gemini_content_is(#[trigger] elements(ms[0].value)[i], b.contents@[i])
    &&& b.system_instruction matches Some(s) ==> {
        &&& ms[1].key@ == "systemInstruction"@
        &&& object_with(ms[1].value, seq!["parts"@])
        &&& elements(at(ms[1].value, 0)).len() == 1
        &&& at(ms[1].value, 0) is Array
        &&& object_with(elements(at(ms[1].value, 0))[0], seq!["text"@])
        &&& str_is(at(elements(at(ms[1].value, 0))[0], 0), s@)
    }
    &&& b.tools matches Some(ts) ==> {
        let t = ms[1 + n_system];
        &&& t.key@ == "tools"@ && t.value is Array
        &&& elements(t.value).len() == 1
        &&& object_with(elements(t.value)[0], seq!["functionDeclarations"@])
        &&& tools_are(at(elements(t.value)[0], 0), ts@, "parameters"@)
    }
    &&& last.key@ == "generationConfig"@
    &&& object_with(last.value, seq!["maxOutputTokens"@])
    &&& at(last.value, 0) == JsonValue::Number(b.max_output_tokens as u64)
}

/// Renders a `streamGenerateContent` body as JSON.
pub fn gemini_body_json(b: &GeminiBody) -> (v: JsonValue)
    ensures
        gemini_body_is(v, *b),
{
    let mut xs: Vec<JsonValue> = Vec::new();
    let mut i: usize = 0;
    while i < b.contents.len()
        invariant
            i <= b.contents.len(),
            xs.len() == i,
            forall|j: int| 0 <= j < i ==> gemini_content_is(#[trigger] xs@[j], b.contents@[j]),
        decreases b.contents.len() - i,
    {
        xs.push(gemini_content_json(&b.contents[i]));
        i = i + 1;
    }
    let mut ms: Vec<JsonMember> = Vec::new();
    ms.push(member("contents", JsonValue::Array(xs)));
    match &b.system_instruction {
        Some(s) => {
            let mut part: Vec<JsonMember> = Vec::new();
            part.push(member("text", text(s)));
            let mut parts: Vec<JsonValue> = Vec::new();
            parts.push(JsonValue::Object(part));
            let mut si: Vec<JsonMember> = Vec::new();
            si.push(member("parts", JsonValue::Array(parts)));
            ms.push(member("systemInstruction", JsonValue::Object(si)));
        },
        None => {},
    }
    match &b.tools {
        Some(ts) => {
            let mut decl: Vec<JsonMember> = Vec::new();
            decl.push(member("functionDeclarations", tools_json(ts, "parameters")));
            let mut tools: Vec<JsonValue> = Vec::new();
            tools.push(JsonValue::Object(decl));
            ms.push(member("tools", JsonValue::Array(tools)));
        },
        None => {},
    }
    let mut gc: Vec<JsonMember> = Vec::new();
    gc.push(member("maxOutputTokens", JsonValue::Number(b.max_output_tokens as u64)));
    ms.push(member("generationConfig", JsonValue::Object(gc)));
    JsonValue::Object(ms)
}

} // verus!
