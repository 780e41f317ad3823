use vstd::prelude::*;
use vstd::string::*;
use crate::json::{JVal, JsonValue, jval_of, jentries_of, obj_get};
use crate::text::{int_text, json_text, i32_to_string};

verus! {

broadcast use crate::json::lemma_jvals_of_len, crate::json::lemma_jvals_of_index,
    crate::json::lemma_jentries_of_len, crate::json::lemma_jentries_of_index,
    vstd::std_specs::vec::group_vec_axioms, vstd::seq::group_seq_axioms;

/// The view of an optional payload value.
pub open spec fn opt_jval(o: Option<JsonValue>) -> Option<JVal> {
    match o {
        Some(v) => Some(jval_of(v)),
        None => None,
    }
}

/// A decoded request envelope. A missing or null `params` or `id` entry is
/// carried as `None`; an absent `id` marks the message a notification.
pub struct JsonRpcRequest {
    pub jsonrpc: String,
    pub method: String,
    pub params: Option<JsonValue>,
    pub id: Option<JsonValue>,
}

/// The mathematical shape of a request envelope.
pub struct RequestV {
    pub jsonrpc: Seq<char>,
    pub method: Seq<char>,
    pub params: Option<JVal>,
    pub id: Option<JVal>,
}

impl View for JsonRpcRequest {
    type V = RequestV;

    open spec fn view(&self) -> RequestV {
        RequestV {
            jsonrpc: self.jsonrpc@,
            method: self.method@,
            params: opt_jval(self.params),
            id: opt_jval(self.id),
        }
    }
}

/// A protocol error: a code from the fixed taxonomy and a message.
pub struct JsonRpcError {
    pub code: i32,
    pub message: String,
    pub data: Option<JsonValue>,
}

/// The mathematical shape of a protocol error.
pub struct ErrorV {
    pub code: int,
    pub message: Seq<char>,
    pub data: Option<JVal>,
}

impl View for JsonRpcError {
    type V = ErrorV;

    open spec fn view(&self) -> ErrorV {
        ErrorV { code: self.code as int, message: self.message@, data: opt_jval(self.data) }
    }
}

/// A response envelope. Exactly one of `result` and `error` is present when a
/// response exists; `id` echoes the request's id.
pub struct JsonRpcResponse {
    pub jsonrpc: String,
    pub result: Option<JsonValue>,
    pub error: Option<JsonRpcError>,
    pub id: Option<JsonValue>,
}

/// The mathematical shape of a response envelope.
pub struct ResponseV {
    pub jsonrpc: Seq<char>,
    pub result: Option<JVal>,
    pub error: Option<ErrorV>,
    pub id: Option<JVal>,
}

impl View for JsonRpcResponse {
    type V = ResponseV;

    open spec fn view(&self) -> ResponseV {
        ResponseV {
            jsonrpc: self.jsonrpc@,
            result: opt_jval(self.result),
            error: match self.error {
                Some(e) => Some(e@),
                None => None,
            },
            id: opt_jval(self.id),
        }
    }
}

/// A success envelope: the protocol tag, the result, the echoed id.
pub open spec fn ok_response_v(result: JVal, id: Option<JVal>) -> ResponseV {
    ResponseV { jsonrpc: "2.0"@, result: Some(result), error: None, id }
}

/// An error envelope: the protocol tag, an error with no attached data, the
/// echoed id.
pub open spec fn error_response_v(code: int, message: Seq<char>, id: Option<JVal>) -> ResponseV {
    ResponseV {
        jsonrpc: "2.0"@,
        result: None,
        error: Some(ErrorV { code, message, data: None }),
        id,
    }
}

/// An optional envelope entry: missing and null both mean "not there".
pub open spec fn opt_field(entries: Seq<(Seq<char>, JVal)>, key: Seq<char>) -> Option<JVal> {
    match obj_get(entries, key) {
        None => None,
        Some(v) => if v is Null {
            None
        } else {
            Some(v)
        },
    }
}

/// What decoding a parsed value as a request envelope yields: the value must
/// be an object whose `jsonrpc` and `method` entries are strings; `params`
/// and `id` are optional, with null read as absent; other entries are
/// ignored.
pub open spec fn decode_request_v(v: JVal) -> Option<RequestV> {
    match v {
        JVal::Obj(entries) => match (obj_get(entries, "jsonrpc"@), obj_get(entries, "method"@)) {
            (Some(JVal::Str(tag)), Some(JVal::Str(m))) => Some(
                RequestV {
                    jsonrpc: tag,
                    method: m,
                    params: opt_field(entries, "params"@),
                    id: opt_field(entries, "id"@),
                },
            ),
            _ => None,
        },
        _ => None,
    }
}

pub(crate) fn opt_field_of(v: &JsonValue, key: &str) -> (r: Option<JsonValue>)
    requires
        v@ is Obj,
    ensures
        opt_jval(r) == opt_field(v@->Obj_0, key@),
{
    match v.get_field(key) {
        Some(found) => match found {
            JsonValue::Null => None,
            _ => Some(found.duplicate()),
        },
        None => None,
    }
}

/// Decodes a parsed value into a request envelope, exactly where
/// `decode_request_v` says one exists.
pub fn decode_request(v: &JsonValue) -> (r: Option<JsonRpcRequest>)
    ensures
        match r {
            Some(req) => decode_request_v(v@) == Some(req@),
            None => decode_request_v(v@) is None,
        },
{
    let tag = match v.get_field("jsonrpc") {
        Some(t) => match t {
            JsonValue::Str(s) => s.clone(),
            _ => {
                return None;
            },
        },
        None => {
            return None;
        },
    };
    let method = match v.get_field("method") {
        Some(m) => match m {
            JsonValue::Str(s) => s.clone(),
            _ => {
                return None;
            },
        },
        None => {
            return None;
        },
    };
    let params = opt_field_of(v, "params");
    let id = opt_field_of(v, "id");
    Some(JsonRpcRequest { jsonrpc: tag, method, params, id })
}

/// The JSON shape of a protocol error: `code`, `message`, and `data` only
/// when it is attached.
pub open spec fn error_jval(e: ErrorV) -> JVal {
    JVal::Obj(
        seq![("code"@, JVal::Num(int_text(e.code))), ("message"@, JVal::Str(e.message))] + (
        match e.data {
            Some(d) => seq![("data"@, d)],
            None => Seq::empty(),
        }),
    )
}

/// The JSON shape of a response envelope: the protocol tag always, then
/// whichever of `result`, `error` and `id` are present, in that order.
pub open spec fn response_jval(r: ResponseV) -> JVal {
    JVal::Obj(
        seq![("jsonrpc"@, JVal::Str(r.jsonrpc))] + (match r.result {
            Some(v) => seq![("result"@, v)],
            None => Seq::empty(),
        }) + (match r.error {
            Some(e) => seq![("error"@, error_jval(e))],
            None => Seq::empty(),
        }) + (match r.id {
            Some(v) => seq![("id"@, v)],
            None => Seq::empty(),
        }),
    )
}

/// The wire text of a response envelope.
pub open spec fn response_text(r: ResponseV) -> Seq<char> {
    json_text(response_jval(r))
}

/// Rebuilds a response envelope as a payload value, ready for encoding.
pub fn response_to_value(r: JsonRpcResponse) -> (v: JsonValue)
    ensures
        v@ == response_jval(r@),
{
    let ghost rv = r@;
    let mut entries: Vec<(String, JsonValue)> = Vec::new();
    entries.push(("jsonrpc".to_owned(), JsonValue::Str(r.jsonrpc)));
    if let Some(result) = r.result {
        entries.push(("result".to_owned(), result));
    }
    if let Some(err) = r.error {
        let mut error_entries: Vec<(String, JsonValue)> = Vec::new();
        error_entries.push(("code".to_owned(), JsonValue::Num(i32_to_string(err.code))));
        error_entries.push(("message".to_owned(), JsonValue::Str(err.message)));
        if let Some(data) = err.data {
            error_entries.push(("data".to_owned(), data));
        }
        proof {
            assert(jentries_of(error_entries@) =~= error_jval(rv.error->0)->Obj_0);
        }
        entries.push(("error".to_owned(), JsonValue::Obj(error_entries)));
    }
    if let Some(id) = r.id {
        entries.push(("id".to_owned(), id));
    }
    proof {
        assert(jentries_of(entries@) =~= response_jval(rv)->Obj_0);
    }
    JsonValue::Obj(entries)
}

/// Encodes a response envelope as its wire text.
pub fn encode_response(r: JsonRpcResponse) -> (s: String)
    ensures
        s@ == response_text(r@),
{
    let v = response_to_value(r);
    crate::text::json_to_string(&v)
}

} // verus!
