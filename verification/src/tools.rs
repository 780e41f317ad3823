use vstd::prelude::*;
use vstd::string::*;
use crate::json::{JVal, JsonValue, jval_of, jvals_of, jentries_of};
use crate::text::str_eq;

verus! {

broadcast use crate::json::lemma_jvals_of_len, crate::json::lemma_jvals_of_index,
    crate::json::lemma_jentries_of_len, crate::json::lemma_jentries_of_index,
    vstd::std_specs::vec::group_vec_axioms, vstd::seq::group_seq_axioms;

/// One unit of a tool's output: a type tag plus text.
pub struct ContentItem {
    pub content_type: String,
    pub text: String,
}

/// The mathematical shape of a content item.
pub struct ContentItemV {
    pub content_type: Seq<char>,
    pub text: Seq<char>,
}

impl View for ContentItem {
    type V = ContentItemV;

    open spec fn view(&self) -> ContentItemV {
        ContentItemV { content_type: self.content_type@, text: self.text@ }
    }
}

/// What invoking a tool yields: content items, plus a flag with which the
/// tool itself reports a domain-level failure. A flagged result is still a
/// successful invocation.
pub struct ToolsCallResult {
    pub content: Vec<ContentItem>,
    pub is_error: Option<bool>,
}

/// The mathematical shape of an invocation result.
pub struct CallResultV {
    pub content: Seq<ContentItemV>,
    pub is_error: Option<bool>,
}

impl View for ToolsCallResult {
    type V = CallResultV;

    open spec fn view(&self) -> CallResultV {
        CallResultV {
            content: Seq::new(self.content@.len(), |i: int| self.content@[i]@),
            is_error: self.is_error,
        }
    }
}

/// A tool descriptor: the routing key, an optional description, and the
/// schema the tool declares for its arguments. The dispatcher never
/// validates arguments against the schema; that is the tool's own business.
pub struct Tool {
    pub name: String,
    pub description: Option<String>,
    pub input_schema: JsonValue,
}

/// The mathematical shape of a tool descriptor.
pub struct ToolV {
    pub name: Seq<char>,
    pub description: Option<Seq<char>>,
    pub input_schema: JVal,
}

impl View for Tool {
    type V = ToolV;

    open spec fn view(&self) -> ToolV {
        ToolV {
            name: self.name@,
            description: match self.description {
                Some(d) => Some(d@),
                None => None,
            },
            input_schema: jval_of(self.input_schema),
        }
    }
}

/// Some registered tool carries this name.
pub open spec fn has_tool_v(tools: Seq<ToolV>, name: Seq<char>) -> bool {
    exists|i: int| 0 <= i < tools.len() && tools[i].name == name
}

/// The registered tools, in registration order. The registry is built once
/// at startup and only read afterwards.
pub struct ToolRegistry {
    tools: Vec<Tool>,
}

impl View for ToolRegistry {
    type V = Seq<ToolV>;

    closed spec fn view(&self) -> Seq<ToolV> {
        Seq::new(self.tools@.len(), |i: int| self.tools@[i]@)
    }
}

impl ToolRegistry {
    /// An empty registry.
    pub fn new() -> (r: Self)
        ensures
            r@ =~= Seq::<ToolV>::empty(),
    {
        ToolRegistry { tools: Vec::new() }
    }

    /// Appends a tool; the caller guarantees the name is not yet taken.
    pub fn register_tool(&mut self, tool: Tool)
        ensures
            final(self)@ =~= old(self)@.push(tool@),
    {
        self.tools.push(tool);
    }

    /// The registered descriptors, in registration order.
    pub fn get_tools(&self) -> (r: &Vec<Tool>)
        ensures
            r@.len() == self@.len(),
            forall|i: int| 0 <= i < r@.len() ==> (#[trigger] r@[i])@ == self@[i],
    {
        &self.tools
    }

    /// Whether a tool of this name is registered.
    pub fn contains_tool(&self, name: &str) -> (r: bool)
        ensures
            r == has_tool_v(self@, name@),
    {
        let mut i: usize = 0;
        while i < self.tools.len()
            invariant
                0 <= i <= self.tools@.len(),
                forall|k: int| 0 <= k < i ==> (#[trigger] self.tools@[k])@.name != name@,
            decreases self.tools@.len() - i,
        {
            if str_eq(self.tools[i].name.as_str(), name) {
                proof {
                    assert(self@[i as int].name == name@);
                }
                return true;
            }
            i += 1;
        }
        proof {
            assert forall|k: int| 0 <= k < self@.len() implies #[trigger] self@[k].name != name@
            by {
                assert(self@[k] == self.tools@[k]@);
            }
        }
        false
    }
}

/// The JSON shape of one tool descriptor: name, description (null when the
/// tool has none), and the declared argument schema.
pub open spec fn descriptor_jval(t: ToolV) -> JVal {
    JVal::Obj(
        seq![
            ("name"@, JVal::Str(t.name)),
            ("description"@, match t.description {
                Some(d) => JVal::Str(d),
                None => JVal::Null,
            }),
            ("input_schema"@, t.input_schema),
        ],
    )
}

/// The JSON shape of a tool listing: the descriptors, in registration order.
pub open spec fn tools_list_jval(tools: Seq<ToolV>) -> JVal {
    JVal::Obj(
        seq![("tools"@, JVal::Arr(Seq::new(tools.len(), |i: int| descriptor_jval(tools[i]))))],
    )
}

/// The JSON shape of an invocation result: the content items in order, and
/// the domain-failure flag (null when the tool left it unset).
pub open spec fn content_item_jval(c: ContentItemV) -> JVal {
    JVal::Obj(seq![("type"@, JVal::Str(c.content_type)), ("text"@, JVal::Str(c.text))])
}

pub open spec fn call_result_jval(r: CallResultV) -> JVal {
    JVal::Obj(
        seq![
            ("content"@, JVal::Arr(Seq::new(r.content.len(), |i: int| content_item_jval(
                r.content[i])))),
            ("is_error"@, match r.is_error {
                Some(b) => JVal::Bool(b),
                None => JVal::Null,
            }),
        ],
    )
}

/// Rebuilds one tool descriptor as a payload value.
pub fn descriptor_value(t: &Tool) -> (v: JsonValue)
    ensures
        v@ == descriptor_jval(t@),
{
    let mut entries: Vec<(String, JsonValue)> = Vec::new();
    entries.push(("name".to_owned(), JsonValue::Str(t.name.clone())));
    let description = match &t.description {
        Some(d) => JsonValue::Str(d.clone()),
        None => JsonValue::Null,
    };
    entries.push(("description".to_owned(), description));
    entries.push(("input_schema".to_owned(), t.input_schema.duplicate()));
    proof {
        assert(jentries_of(entries@) =~= descriptor_jval(t@)->Obj_0);
    }
    JsonValue::Obj(entries)
}

/// Rebuilds the registry's listing as a payload value, descriptors in
/// registration order.
pub fn tools_list_value(reg: &ToolRegistry) -> (v: JsonValue)
    ensures
        v@ == tools_list_jval(reg@),
{
    let tools = reg.get_tools();
    let mut items: Vec<JsonValue> = Vec::new();
    let mut i: usize = 0;
    while i < tools.len()
        invariant
            tools@.len() == reg@.len(),
            forall|k: int| 0 <= k < tools@.len() ==> (#[trigger] tools@[k])@ == reg@[k],
            0 <= i <= tools@.len(),
            items@.len() == i,
            forall|k: int| 0 <= k < i ==> jval_of(#[trigger] items@[k]) == descriptor_jval(
                reg@[k]),
        decreases tools@.len() - i,
    {
        let item = descriptor_value(&tools[i]);
        items.push(item);
        i += 1;
    }
    let mut entries: Vec<(String, JsonValue)> = Vec::new();
    entries.push(("tools".to_owned(), JsonValue::Arr(items)));
    proof {
        assert(jvals_of(items@) =~= Seq::new(reg@.len(), |k: int| descriptor_jval(reg@[k])));
        assert(jentries_of(entries@) =~= tools_list_jval(reg@)->Obj_0);
    }
    JsonValue::Obj(entries)
}

/// Rebuilds a list of content items as a payload value, items in order.
pub fn content_items_value(content: &Vec<ContentItem>) -> (v: JsonValue)
    ensures
        v@ == JVal::Arr(Seq::new(content@.len(), |i: int| content_item_jval(content@[i]@))),
{
    let mut items: Vec<JsonValue> = Vec::new();
    let mut i: usize = 0;
    while i < content.len()
        invariant
            0 <= i <= content@.len(),
            items@.len() == i,
            forall|k: int| 0 <= k < i ==> jval_of(#[trigger] items@[k]) == content_item_jval(
                content@[k]@),
        decreases content@.len() - i,
    {
        let mut item_entries: Vec<(String, JsonValue)> = Vec::new();
        item_entries.push(("type".to_owned(), JsonValue::Str(content[i].content_type.clone())));
        item_entries.push(("text".to_owned(), JsonValue::Str(content[i].text.clone())));
        proof {
            assert(jentries_of(item_entries@) =~= content_item_jval(content@[i as int]@)->Obj_0);
        }
        items.push(JsonValue::Obj(item_entries));
        i += 1;
    }
    proof {
        assert(jvals_of(items@) =~= Seq::new(content@.len(), |k: int| content_item_jval(
            content@[k]@)));
    }
    JsonValue::Arr(items)
}

/// Rebuilds an invocation result as a payload value.
pub fn call_result_value(r: ToolsCallResult) -> (v: JsonValue)
    ensures
        v@ == call_result_jval(r@),
{
    let ghost rv = r@;
    let content_value = content_items_value(&r.content);
    let flag = match r.is_error {
        Some(b) => JsonValue::Bool(b),
        None => JsonValue::Null,
    };
    let mut entries: Vec<(String, JsonValue)> = Vec::new();
    entries.push(("content".to_owned(), content_value));
    entries.push(("is_error".to_owned(), flag));
    proof {
        assert(Seq::new(r.content@.len(), |i: int| content_item_jval(r.content@[i]@)) =~= Seq::new(
            rv.content.len(), |k: int| content_item_jval(rv.content[k])));
        assert(jentries_of(entries@) =~= call_result_jval(rv)->Obj_0);
    }
    JsonValue::Obj(entries)
}

/// The JSON shape `{"type": "number"}`, as serde_json's sorted map keeps it.
pub open spec fn number_type_jval() -> JVal {
    JVal::Obj(seq![("type"@, JVal::Str("number"@))])
}

/// The argument schema the addition tool declares.
pub open spec fn add_schema_v() -> JVal {
    JVal::Obj(
        seq![
            ("properties"@, JVal::Obj(
                seq![("a"@, number_type_jval()), ("b"@, number_type_jval())],
            )),
            ("required"@, JVal::Arr(seq![JVal::Str("a"@), JVal::Str("b"@)])),
            ("type"@, JVal::Str("object"@)),
        ],
    )
}

/// The argument schema the calculator tool declares.
pub open spec fn calculate_schema_v() -> JVal {
    JVal::Obj(
        seq![
            ("properties"@, JVal::Obj(
                seq![
                    ("a"@, number_type_jval()),
                    ("b"@, number_type_jval()),
                    ("operation"@, JVal::Obj(
                        seq![
                            ("enum"@, JVal::Arr(
                                seq![
                                    JVal::Str("add"@),
                                    JVal::Str("subtract"@),
                                    JVal::Str("multiply"@),
                                    JVal::Str("divide"@),
                                ],
                            )),
                            ("type"@, JVal::Str("string"@)),
                        ],
                    )),
                ],
            )),
            ("required"@, JVal::Arr(
                seq![JVal::Str("operation"@), JVal::Str("a"@), JVal::Str("b"@)],
            )),
            ("type"@, JVal::Str("object"@)),
        ],
    )
}

/// The addition tool's descriptor.
pub open spec fn add_tool_v() -> ToolV {
    ToolV {
        name: "add"@,
        description: Some("Add two numbers"@),
        input_schema: add_schema_v(),
    }
}

/// The calculator tool's descriptor.
pub open spec fn calculate_tool_v() -> ToolV {
    ToolV {
        name: "calculate"@,
        description: Some("Perform arithmetic operations"@),
        input_schema: calculate_schema_v(),
    }
}

fn str_value(s: &str) -> (v: JsonValue)
    ensures
        v@ == JVal::Str(s@),
{
    JsonValue::Str(s.to_owned())
}

fn number_type_value() -> (v: JsonValue)
    ensures
        v@ == number_type_jval(),
{
    let mut entries: Vec<(String, JsonValue)> = Vec::new();
    entries.push(("type".to_owned(), str_value("number")));
    proof {
        assert(jentries_of(entries@) =~= number_type_jval()->Obj_0);
    }
    JsonValue::Obj(entries)
}

fn add_schema() -> (v: JsonValue)
    ensures
        v@ == add_schema_v(),
{
    let mut props: Vec<(String, JsonValue)> = Vec::new();
    props.push(("a".to_owned(), number_type_value()));
    props.push(("b".to_owned(), number_type_value()));
    let mut required: Vec<JsonValue> = Vec::new();
    required.push(str_value("a"));
    required.push(str_value("b"));
    let mut entries: Vec<(String, JsonValue)> = Vec::new();
    proof {
        assert(jentries_of(props@) =~= add_schema_v()->Obj_0[0].1->Obj_0);
        assert(jvals_of(required@) =~= add_schema_v()->Obj_0[1].1->Arr_0);
    }
    entries.push(("properties".to_owned(), JsonValue::Obj(props)));
    entries.push(("required".to_owned(), JsonValue::Arr(required)));
    entries.push(("type".to_owned(), str_value("object")));
    proof {
        assert(jentries_of(entries@) =~= add_schema_v()->Obj_0);
    }
    JsonValue::Obj(entries)
}

fn calculate_schema() -> (v: JsonValue)
    ensures
        v@ == calculate_schema_v(),
{
    let mut op_enum: Vec<JsonValue> = Vec::new();
    op_enum.push(str_value("add"));
    op_enum.push(str_value("subtract"));
    op_enum.push(str_value("multiply"));
    op_enum.push(str_value("divide"));
    let mut op_entries: Vec<(String, JsonValue)> = Vec::new();
    proof {
        assert(jvals_of(op_enum@) =~= calculate_schema_v()->Obj_0[0].1->Obj_0[2].1->Obj_0[0].1
            ->Arr_0);
    }
    op_entries.push(("enum".to_owned(), JsonValue::Arr(op_enum)));
    op_entries.push(("type".to_owned(), str_value("string")));
    let mut props: Vec<(String, JsonValue)> = Vec::new();
    props.push(("a".to_owned(), number_type_value()));
    props.push(("b".to_owned(), number_type_value()));
    proof {
        assert(jentries_of(op_entries@) =~= calculate_schema_v()->Obj_0[0].1->Obj_0[2].1->Obj_0);
    }
    props.push(("operation".to_owned(), JsonValue::Obj(op_entries)));
    let mut required: Vec<JsonValue> = Vec::new();
    required.push(str_value("operation"));
    required.push(str_value("a"));
    required.push(str_value("b"));
    let mut entries: Vec<(String, JsonValue)> = Vec::new();
    proof {
        assert(jentries_of(props@) =~= calculate_schema_v()->Obj_0[0].1->Obj_0);
        assert(jvals_of(required@) =~= calculate_schema_v()->Obj_0[1].1->Arr_0);
    }
    entries.push(("properties".to_owned(), JsonValue::Obj(props)));
    entries.push(("required".to_owned(), JsonValue::Arr(required)));
    entries.push(("type".to_owned(), str_value("object")));
    proof {
        assert(jentries_of(entries@) =~= calculate_schema_v()->Obj_0);
    }
    JsonValue::Obj(entries)
}

/// Registers the tools this deployment ships with: the addition tool and the
/// calculator tool, in that order.
pub fn register_default_tools(registry: &mut ToolRegistry)
    ensures
        final(registry)@ =~= old(registry)@ + seq![add_tool_v(), calculate_tool_v()],
{
    let add = Tool {
        name: "add".to_owned(),
        description: Some("Add two numbers".to_owned()),
        input_schema: add_schema(),
    };
    registry.register_tool(add);
    let calculate = Tool {
        name: "calculate".to_owned(),
        description: Some("Perform arithmetic operations".to_owned()),
        input_schema: calculate_schema(),
    };
    registry.register_tool(calculate);
}

} // verus!
