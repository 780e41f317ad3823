use vstd::prelude::*;
use vstd::string::*;
use crate::json::{JVal, JsonValue, jval_of, jentries_of, obj_get};
use crate::envelope::{JsonRpcRequest, JsonRpcResponse, JsonRpcError, RequestV, ResponseV,
    ok_response_v, error_response_v, opt_jval, opt_field, opt_field_of};
use crate::tools::{ToolRegistry, ToolV, ToolsCallResult, CallResultV, has_tool_v,
    tools_list_jval, tools_list_value, call_result_jval, call_result_value, descriptor_jval};
use crate::text::{str_eq, seq_contains, seq_contains_at};

verus! {

broadcast use crate::json::lemma_jvals_of_len, crate::json::lemma_jvals_of_index,
    crate::json::lemma_jentries_of_len, crate::json::lemma_jentries_of_index,
    vstd::std_specs::vec::group_vec_axioms, vstd::seq::group_seq_axioms;

/// The closed set of methods the dispatcher routes, with an explicit default
/// for anything else.
#[derive(Debug, PartialEq, Eq, Structural)]
pub enum Method {
    Initialize,
    ToolsList,
    ToolsCall,
    Unknown,
}

/// Which method a request names.
pub open spec fn method_of(m: Seq<char>) -> Method {
    if m == "initialize"@ {
        Method::Initialize
    } else if m == "tools/list"@ {
        Method::ToolsList
    } else if m == "tools/call"@ {
        Method::ToolsCall
    } else {
        Method::Unknown
    }
}

/// Routes a method name into the closed method set.
pub fn parse_method(m: &str) -> (r: Method)
    ensures
        r == method_of(m@),
{
    if str_eq(m, "initialize") {
        Method::Initialize
    } else if str_eq(m, "tools/list") {
        Method::ToolsList
    } else if str_eq(m, "tools/call") {
        Method::ToolsCall
    } else {
        Method::Unknown
    }
}

/// What decoding a `tools/call` params value yields: the value must be an
/// object whose `name` entry is a string; `arguments` is optional, with null
/// read as absent.
pub open spec fn call_params_of(p: JVal) -> Option<(Seq<char>, Option<JVal>)> {
    match p {
        JVal::Obj(entries) => match obj_get(entries, "name"@) {
            Some(JVal::Str(name)) => Some((name, opt_field(entries, "arguments"@))),
            _ => None,
        },
        _ => None,
    }
}

/// Decodes a `tools/call` params value, exactly where `call_params_of` says
/// one exists.
pub fn decode_call_params(p: &JsonValue) -> (r: Option<(String, Option<JsonValue>)>)
    ensures
        match r {
            Some(decoded) => call_params_of(p@) == Some((decoded.0@, opt_jval(decoded.1))),
            None => call_params_of(p@) is None,
        },
{
    let name = match p.get_field("name") {
        Some(found) => match found {
            JsonValue::Str(s) => s.clone(),
            _ => {
                return None;
            },
        },
        None => {
            return None;
        },
    };
    let args = opt_field_of(p, "arguments");
    Some((name, args))
}

/// What dispatching one request yields: either a finished reply, or the tool
/// invocation the caller must perform (for a `tools/call` whose named tool is
/// registered).
pub enum DispatchOutcome {
    Reply(JsonRpcResponse),
    Invoke { name: String, arguments: Option<JsonValue>, id: Option<JsonValue> },
}

/// The mathematical shape of a dispatch outcome.
pub enum OutcomeV {
    Reply(ResponseV),
    Invoke { name: Seq<char>, arguments: Option<JVal>, id: Option<JVal> },
}

impl View for DispatchOutcome {
    type V = OutcomeV;

    open spec fn view(&self) -> OutcomeV {
        match self {
            DispatchOutcome::Reply(resp) => OutcomeV::Reply(resp@),
            DispatchOutcome::Invoke { name, arguments, id } => OutcomeV::Invoke {
                name: name@,
                arguments: opt_jval(*arguments),
                id: opt_jval(*id),
            },
        }
    }
}

/// The payload `initialize` always answers with: protocol version, the fixed
/// capability set (tools only, `list_changed` false), and server identity.
pub open spec fn initialize_result_v() -> JVal {
    JVal::Obj(
        seq![
            ("protocol_version"@, JVal::Str("2024-11-05"@)),
            ("capabilities"@, JVal::Obj(
                seq![
                    ("experimental"@, JVal::Null),
                    ("logging"@, JVal::Null),
                    ("prompts"@, JVal::Null),
                    ("resources"@, JVal::Null),
                    ("tools"@, JVal::Obj(seq![("list_changed"@, JVal::Bool(false))])),
                ],
            )),
            ("server_info"@, JVal::Obj(
                seq![
                    ("name"@, JVal::Str("{{server_name}}"@)),
                    ("version"@, JVal::Str("1.0.0"@)),
                ],
            )),
        ],
    )
}

/// Rebuilds the `initialize` payload as a value.
pub fn initialize_result_value() -> (v: JsonValue)
    ensures
        v@ == initialize_result_v(),
{
    let mut tools_cap: Vec<(String, JsonValue)> = Vec::new();
    tools_cap.push(("list_changed".to_owned(), JsonValue::Bool(false)));
    let mut caps: Vec<(String, JsonValue)> = Vec::new();
    proof {
        assert(jentries_of(tools_cap@) =~= initialize_result_v()->Obj_0[1].1->Obj_0[4].1->Obj_0);
    }
    caps.push(("experimental".to_owned(), JsonValue::Null));
    caps.push(("logging".to_owned(), JsonValue::Null));
    caps.push(("prompts".to_owned(), JsonValue::Null));
    caps.push(("resources".to_owned(), JsonValue::Null));
    caps.push(("tools".to_owned(), JsonValue::Obj(tools_cap)));
    let mut info: Vec<(String, JsonValue)> = Vec::new();
    info.push(("name".to_owned(), JsonValue::Str("{{server_name}}".to_owned())));
    info.push(("version".to_owned(), JsonValue::Str("1.0.0".to_owned())));
    let mut entries: Vec<(String, JsonValue)> = Vec::new();
    proof {
        assert(jentries_of(caps@) =~= initialize_result_v()->Obj_0[1].1->Obj_0);
        assert(jentries_of(info@) =~= initialize_result_v()->Obj_0[2].1->Obj_0);
    }
    entries.push(("protocol_version".to_owned(), JsonValue::Str("2024-11-05".to_owned())));
    entries.push(("capabilities".to_owned(), JsonValue::Obj(caps)));
    entries.push(("server_info".to_owned(), JsonValue::Obj(info)));
    proof {
        assert(jentries_of(entries@) =~= initialize_result_v()->Obj_0);
    }
    JsonValue::Obj(entries)
}

/// A success envelope around `result`, echoing `id`.
pub fn ok_response(result: JsonValue, id: Option<JsonValue>) -> (r: JsonRpcResponse)
    ensures
        r@ == ok_response_v(jval_of(result), opt_jval(id)),
{
    JsonRpcResponse {
        jsonrpc: "2.0".to_owned(),
        result: Some(result),
        error: None,
        id,
    }
}

/// An error envelope with `code` and `message`, echoing `id`.
pub fn error_response(code: i32, message: String, id: Option<JsonValue>) -> (r: JsonRpcResponse)
    ensures
        r@ == error_response_v(code as int, message@, opt_jval(id)),
{
    JsonRpcResponse {
        jsonrpc: "2.0".to_owned(),
        result: None,
        error: Some(JsonRpcError { code, message, data: None }),
        id,
    }
}

/// What dispatching a request yields, as a function of the request and the
/// registered tools. The request/notification distinction is the caller's
/// business: this transition answers whatever it is handed, echoing the id it
/// carries.
pub open spec fn dispatch_v(req: RequestV, tools: Seq<ToolV>) -> OutcomeV {
    match method_of(req.method) {
        Method::Initialize => OutcomeV::Reply(ok_response_v(initialize_result_v(), req.id)),
        Method::ToolsList => OutcomeV::Reply(ok_response_v(tools_list_jval(tools), req.id)),
        Method::ToolsCall => match req.params {
            None => OutcomeV::Reply(error_response_v(-32602, "Missing params"@, req.id)),
            Some(p) => match call_params_of(p) {
                None => OutcomeV::Reply(error_response_v(-32602, "Invalid params"@, req.id)),
                Some(decoded) => if has_tool_v(tools, decoded.0) {
                    OutcomeV::Invoke { name: decoded.0, arguments: decoded.1, id: req.id }
                } else {
                    OutcomeV::Reply(
                        error_response_v(
                            -32603,
                            "Internal error: Unknown tool: "@ + decoded.0,
                            req.id,
                        ),
                    )
                },
            },
        },
        Method::Unknown => OutcomeV::Reply(error_response_v(-32601, "Method not found"@, req.id)),
    }
}

/// Routes one request: a single stateless transition from `(method, params,
/// id)` to a reply or to the tool invocation still owed.
pub fn dispatch(req: JsonRpcRequest, registry: &ToolRegistry) -> (r: DispatchOutcome)
    ensures
        r@ == dispatch_v(req@, registry@),
{
    match parse_method(req.method.as_str()) {
        Method::Initialize => DispatchOutcome::Reply(
            ok_response(initialize_result_value(), req.id),
        ),
        Method::ToolsList => DispatchOutcome::Reply(
            ok_response(tools_list_value(registry), req.id),
        ),
        Method::ToolsCall => match req.params {
            None => DispatchOutcome::Reply(
                error_response(-32602, "Missing params".to_owned(), req.id),
            ),
            Some(p) => match decode_call_params(&p) {
                None => DispatchOutcome::Reply(
                    error_response(-32602, "Invalid params".to_owned(), req.id),
                ),
                Some(decoded) => {
                    let (name, args) = decoded;
                    if registry.contains_tool(name.as_str()) {
                        DispatchOutcome::Invoke { name, arguments: args, id: req.id }
                    } else {
                        let mut message = String::from_str("Internal error: Unknown tool: ");
                        message.append(name.as_str());
                        DispatchOutcome::Reply(error_response(-32603, message, req.id))
                    }
                },
            },
        },
        Method::Unknown => DispatchOutcome::Reply(
            error_response(-32601, "Method not found".to_owned(), req.id),
        ),
    }
}

/// How a performed tool invocation becomes the reply: a result, even one the
/// tool flagged as a domain failure, travels as a success envelope; an
/// invocation fault becomes the internal-error reply.
pub open spec fn tool_reply_v(id: Option<JVal>, outcome: Result<CallResultV, Seq<char>>)
    -> ResponseV {
    match outcome {
        Ok(res) => ok_response_v(call_result_jval(res), id),
        Err(e) => error_response_v(-32603, "Internal error: "@ + e, id),
    }
}

/// The view of an invocation outcome.
pub open spec fn outcome_view(outcome: Result<ToolsCallResult, String>)
    -> Result<CallResultV, Seq<char>> {
    match outcome {
        Ok(res) => Ok(res@),
        Err(e) => Err(e@),
    }
}

/// Wraps a performed tool invocation into its reply envelope.
pub fn tool_reply(id: Option<JsonValue>, outcome: Result<ToolsCallResult, String>)
    -> (r: JsonRpcResponse)
    ensures
        r@ == tool_reply_v(opt_jval(id), outcome_view(outcome)),
{
    match outcome {
        Ok(res) => ok_response(call_result_value(res), id),
        Err(e) => {
            let mut message = String::from_str("Internal error: ");
            message.append(e.as_str());
            error_response(-32603, message, id)
        },
    }
}

proof fn lemma_method_names_differ()
    ensures
        "initialize"@ != "tools/list"@,
        "initialize"@ != "tools/call"@,
        "tools/list"@ != "tools/call"@,
{
    reveal_strlit("initialize");
    reveal_strlit("tools/list");
    reveal_strlit("tools/call");
    assert("initialize"@[0] == 'i' && "tools/list"@[0] == 't' && "tools/call"@[0] == 't');
    assert("tools/list"@[6] == 'l' && "tools/call"@[6] == 'c');
}

/// Law: every reply echoes the request's id unchanged, and a tool invocation
/// carries it unchanged, whatever the method and whatever is registered.
pub proof fn lemma_dispatch_echoes_id(req: RequestV, tools: Seq<ToolV>)
    ensures
        match dispatch_v(req, tools) {
            OutcomeV::Reply(resp) => resp.id == req.id,
            OutcomeV::Invoke { id, .. } => id == req.id,
        },
{
}

/// Law: the reply a performed invocation is wrapped into echoes the carried
/// id unchanged.
pub proof fn lemma_tool_reply_echoes_id(id: Option<JVal>, outcome: Result<CallResultV, Seq<char>>)
    ensures
        tool_reply_v(id, outcome).id == id,
{
}

/// Law: `tools/list` replies with a success envelope whose listing holds
/// exactly the registered descriptors, in registration order.
pub proof fn lemma_tools_list_order(req: RequestV, tools: Seq<ToolV>)
    requires
        req.method == "tools/list"@,
    ensures
        dispatch_v(req, tools) matches OutcomeV::Reply(resp) && resp.error is None
            && resp.result == Some(tools_list_jval(tools)),
        tools_list_jval(tools)->Obj_0[0].1->Arr_0.len() == tools.len(),
        forall|i: int| 0 <= i < tools.len() ==> tools_list_jval(tools)->Obj_0[0].1->Arr_0[i]
            == descriptor_jval(tools[i]),
{
    lemma_method_names_differ();
}

/// Law: a `tools/call` that names an unregistered tool replies with the
/// internal-error code, and its message carries the tool's name.
pub proof fn lemma_unknown_tool_error(req: RequestV, tools: Seq<ToolV>, name: Seq<char>,
    args: Option<JVal>)
    requires
        req.method == "tools/call"@,
        req.params matches Some(p) && call_params_of(p) == Some((name, args)),
        !has_tool_v(tools, name),
    ensures
        ({
            &&& dispatch_v(req, tools) matches OutcomeV::Reply(resp)
            &&& resp.result is None
            &&& resp.error matches Some(e)
            &&& e.code == -32603
            &&& e.message == "Internal error: Unknown tool: "@ + name
            &&& seq_contains(e.message, name)
        }),
{
    lemma_method_names_differ();
    let prefix = "Internal error: Unknown tool: "@;
    assert((prefix + name).subrange(prefix.len() as int, (prefix + name).len() as int) =~= name);
    assert(seq_contains_at(prefix + name, name, prefix.len() as int));
}

/// Law: a `tools/call` without params replies with the invalid-params code
/// and the missing-params message.
pub proof fn lemma_missing_params(req: RequestV, tools: Seq<ToolV>)
    requires
        req.method == "tools/call"@,
        req.params is None,
    ensures
        ({
            &&& dispatch_v(req, tools) matches OutcomeV::Reply(resp)
            &&& resp.result is None
            &&& resp.error matches Some(e)
            &&& e.code == -32602
            &&& e.message == "Missing params"@
        }),
{
    lemma_method_names_differ();
}

/// Law: a `tools/call` whose params do not decode (an object without a string
/// `name` entry, or no object at all) replies with the invalid-params code.
pub proof fn lemma_invalid_params(req: RequestV, tools: Seq<ToolV>)
    requires
        req.method == "tools/call"@,
        req.params matches Some(p) && call_params_of(p) is None,
    ensures
        ({
            &&& dispatch_v(req, tools) matches OutcomeV::Reply(resp)
            &&& resp.result is None
            &&& resp.error matches Some(e)
            &&& e.code == -32602
            &&& e.message == "Invalid params"@
        }),
{
    lemma_method_names_differ();
}

/// Law: a result the tool itself flags as a domain failure still travels as
/// a success envelope: the protocol error field stays empty and the flagged
/// result is the reply's result.
pub proof fn lemma_domain_failure_is_success(id: Option<JVal>, res: CallResultV)
    ensures
        tool_reply_v(id, Ok(res)).error is None,
        tool_reply_v(id, Ok(res)).result == Some(call_result_jval(res)),
{
}

/// Law: every reply the dispatcher or the invocation wrapper produces holds
/// exactly one of `result` and `error`.
pub proof fn lemma_result_error_exclusive(req: RequestV, tools: Seq<ToolV>, id: Option<JVal>,
    outcome: Result<CallResultV, Seq<char>>)
    ensures
        dispatch_v(req, tools) matches OutcomeV::Reply(resp) ==> (resp.result is Some
            <==> resp.error is None),
        tool_reply_v(id, outcome).result is Some <==> tool_reply_v(id, outcome).error is None,
{
}

/// Law: `initialize` is idempotent — any two initialize requests, whatever
/// their params, ids or registries, get the same success payload.
pub proof fn lemma_initialize_idempotent(r1: RequestV, r2: RequestV, t1: Seq<ToolV>,
    t2: Seq<ToolV>)
    requires
        r1.method == "initialize"@,
        r2.method == "initialize"@,
    ensures
        dispatch_v(r1, t1) matches OutcomeV::Reply(resp1) && resp1.error is None
            && resp1.result == Some(initialize_result_v()),
        dispatch_v(r2, t2) matches OutcomeV::Reply(resp2) && resp2.error is None
            && resp2.result == Some(initialize_result_v()),
{
}

} // verus!
