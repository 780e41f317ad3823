use vstd::prelude::*;
use vstd::string::*;
use crate::json::{JVal, JsonValue, jvals_of, jentries_of};
use crate::envelope::{decode_request, decode_request_v, encode_response, response_text};
use crate::dispatch::{DispatchOutcome, OutcomeV, dispatch, dispatch_v, tool_reply, tool_reply_v,
    outcome_view};
use crate::tools::{ToolRegistry, ToolsCallResult, ContentItem, ContentItemV, content_item_jval,
    content_items_value};
use crate::transport::{wants_streaming, accepts_streaming, frame_v, frame_response};
use crate::parse::{parse_json, parsed_json};
use crate::text::json_text;

verus! {

broadcast use crate::json::lemma_jvals_of_len, crate::json::lemma_jvals_of_index,
    crate::json::lemma_jentries_of_len, crate::json::lemma_jentries_of_index,
    vstd::std_specs::vec::group_vec_axioms, vstd::seq::group_seq_axioms;

/// What handling one inbound message yields: a transport-level failure for
/// text that is no envelope at all, silence for a notification, a finished
/// framed body, or the tool invocation still owed.
pub enum MessageOutcome {
    Invalid(String),
    NoReply,
    Reply(String),
    NeedsTool { name: String, arguments: Option<JsonValue>, id: Option<JsonValue> },
}

/// The mathematical shape of a message outcome.
pub enum MsgOutV {
    Invalid(Seq<char>),
    NoReply,
    Reply(Seq<char>),
    NeedsTool { name: Seq<char>, arguments: Option<JVal>, id: Option<JVal> },
}

impl View for MessageOutcome {
    type V = MsgOutV;

    open spec fn view(&self) -> MsgOutV {
        match self {
            MessageOutcome::Invalid(m) => MsgOutV::Invalid(m@),
            MessageOutcome::NoReply => MsgOutV::NoReply,
            MessageOutcome::Reply(s) => MsgOutV::Reply(s@),
            MessageOutcome::NeedsTool { name, arguments, id } => MsgOutV::NeedsTool {
                name: name@,
                arguments: crate::envelope::opt_jval(*arguments),
                id: crate::envelope::opt_jval(*id),
            },
        }
    }
}

/// Handles one inbound message body: decodes the envelope, absorbs an
/// id-less message silently before any method handling, and otherwise routes
/// it, framing a finished reply for the transport the acceptable content
/// types choose. A `tools/call` whose tool is registered comes back as the
/// invocation the caller must perform and hand to `finish_tool_call`.
pub fn handle_message(body: &str, registry: &ToolRegistry, accept: &str) -> (r: MessageOutcome)
    ensures
        match parsed_json(body@) {
            None => r@ matches MsgOutV::Invalid(m) && (exists|detail: Seq<char>|
                m == "Invalid JSON-RPC request: "@ + detail),
            Some(v) => match decode_request_v(v) {
                None => r@ == MsgOutV::Invalid("Invalid JSON-RPC request: invalid envelope"@),
                Some(req) => match req.id {
                    None => r@ == MsgOutV::NoReply,
                    Some(_) => match dispatch_v(req, registry@) {
                        OutcomeV::Reply(resp) => r@ == MsgOutV::Reply(
                            frame_v(response_text(resp), wants_streaming(accept@)),
                        ),
                        OutcomeV::Invoke { name, arguments, id } => r@ == (MsgOutV::NeedsTool {
                            name,
                            arguments,
                            id,
                        }),
                    },
                },
            },
        },
{
    let parsed = match parse_json(body) {
        Ok(v) => v,
        Err(e) => {
            let mut m = String::from_str("Invalid JSON-RPC request: ");
            m.append(e.as_str());
            proof {
                assert(m@ == "Invalid JSON-RPC request: "@ + e@);
            }
            return MessageOutcome::Invalid(m);
        },
    };
    let req = match decode_request(&parsed) {
        Some(r) => r,
        None => {
            return MessageOutcome::Invalid(
                String::from_str("Invalid JSON-RPC request: invalid envelope"),
            );
        },
    };
    if req.id.is_none() {
        return MessageOutcome::NoReply;
    }
    match dispatch(req, registry) {
        DispatchOutcome::Reply(resp) => {
            let encoded = encode_response(resp);
            let streaming = accepts_streaming(accept);
            MessageOutcome::Reply(frame_response(encoded, streaming))
        },
        DispatchOutcome::Invoke { name, arguments, id } => MessageOutcome::NeedsTool {
            name,
            arguments,
            id,
        },
    }
}

/// Wraps a performed tool invocation into its reply and frames it for the
/// transport the acceptable content types choose.
pub fn finish_tool_call(id: Option<JsonValue>, outcome: Result<ToolsCallResult, String>,
    accept: &str) -> (r: String)
    ensures
        r@ == frame_v(
            response_text(tool_reply_v(crate::envelope::opt_jval(id), outcome_view(outcome))),
            wants_streaming(accept@),
        ),
{
    let resp = tool_reply(id, outcome);
    let encoded = encode_response(resp);
    let streaming = accepts_streaming(accept);
    frame_response(encoded, streaming)
}

/// The JSON shape of a bare content listing, as the legacy direct-invocation
/// endpoints return it: just the content items, wrapped in one field.
pub open spec fn legacy_response_jval(content: Seq<ContentItemV>) -> JVal {
    JVal::Obj(
        seq![("content"@, JVal::Arr(Seq::new(content.len(), |i: int| content_item_jval(
            content[i]))))],
    )
}

/// Encodes a bare content listing for a legacy direct-invocation reply.
pub fn legacy_response_text(content: &Vec<ContentItem>) -> (r: String)
    ensures
        r@ == json_text(legacy_response_jval(Seq::new(content@.len(), |i: int| content@[i]@))),
{
    let items = content_items_value(content);
    let mut entries: Vec<(String, JsonValue)> = Vec::new();
    entries.push(("content".to_owned(), items));
    proof {
        assert(Seq::new(content@.len(), |i: int| content_item_jval(content@[i]@)) =~= Seq::new(
            Seq::new(content@.len(), |i: int| content@[i]@).len(),
            |i: int| content_item_jval(Seq::new(content@.len(), |k: int| content@[k]@)[i]),
        ));
        assert(jentries_of(entries@) =~= legacy_response_jval(Seq::new(content@.len(), |i: int|
            content@[i]@))->Obj_0);
    }
    crate::text::json_to_string(&JsonValue::Obj(entries))
}

/// The descriptive payload of the info endpoint: server identity, protocol
/// version, supported transport tags, and the reachable endpoints, as
/// serde_json's sorted map keeps them.
pub open spec fn info_jval() -> JVal {
    JVal::Obj(
        seq![
            ("endpoints"@, JVal::Obj(
                seq![
                    ("legacy"@, JVal::Obj(
                        seq![
                            ("add"@, JVal::Str("/mcp/add"@)),
                            ("calculate"@, JVal::Str("/mcp/calculate"@)),
                        ],
                    )),
                    ("mcp"@, JVal::Str("/mcp"@)),
                    ("messages"@, JVal::Str("/messages"@)),
                    ("sse"@, JVal::Str("/sse"@)),
                ],
            )),
            ("protocol_version"@, JVal::Str("2024-11-05"@)),
            ("server"@, JVal::Str("{{server_name}}"@)),
            ("transport"@, JVal::Arr(
                seq![JVal::Str("streamable_http"@), JVal::Str("legacy_sse"@)],
            )),
            ("version"@, JVal::Str("1.0.0"@)),
        ],
    )
}

/// Encodes the info payload.
pub fn info_text() -> (r: String)
    ensures
        r@ == json_text(info_jval()),
{
    let mut legacy: Vec<(String, JsonValue)> = Vec::new();
    legacy.push(("add".to_owned(), JsonValue::Str("/mcp/add".to_owned())));
    legacy.push(("calculate".to_owned(), JsonValue::Str("/mcp/calculate".to_owned())));
    let mut endpoints: Vec<(String, JsonValue)> = Vec::new();
    proof {
        assert(jentries_of(legacy@) =~= info_jval()->Obj_0[0].1->Obj_0[0].1->Obj_0);
    }
    endpoints.push(("legacy".to_owned(), JsonValue::Obj(legacy)));
    endpoints.push(("mcp".to_owned(), JsonValue::Str("/mcp".to_owned())));
    endpoints.push(("messages".to_owned(), JsonValue::Str("/messages".to_owned())));
    endpoints.push(("sse".to_owned(), JsonValue::Str("/sse".to_owned())));
    let mut transport: Vec<JsonValue> = Vec::new();
    transport.push(JsonValue::Str("streamable_http".to_owned()));
    transport.push(JsonValue::Str("legacy_sse".to_owned()));
    let mut entries: Vec<(String, JsonValue)> = Vec::new();
    proof {
        assert(jentries_of(endpoints@) =~= info_jval()->Obj_0[0].1->Obj_0);
        assert(jvals_of(transport@) =~= info_jval()->Obj_0[3].1->Arr_0);
    }
    entries.push(("endpoints".to_owned(), JsonValue::Obj(endpoints)));
    entries.push(("protocol_version".to_owned(), JsonValue::Str("2024-11-05".to_owned())));
    entries.push(("server".to_owned(), JsonValue::Str("{{server_name}}".to_owned())));
    entries.push(("transport".to_owned(), JsonValue::Arr(transport)));
    entries.push(("version".to_owned(), JsonValue::Str("1.0.0".to_owned())));
    proof {
        assert(jentries_of(entries@) =~= info_jval()->Obj_0);
    }
    crate::text::json_to_string(&JsonValue::Obj(entries))
}

} // verus!
