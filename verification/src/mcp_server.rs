//! The protocol session and tool dispatcher.
//!
//! A session is a two-state machine: every tool operation is rejected until
//! one handshake succeeds. Requests arrive as one JSON document per line;
//! every outcome is either a finished response line, or a single piece of
//! gateway work — launch a process, read the process table, drive a window
//! — that the caller performs before handing its result back to
//! [`McpServer::resume`], which always finishes the response.

use vstd::prelude::*;
use crate::json::{JsonValue, JVal, jget, render, parsed_doc, jval, jvals, jmembers};
use crate::types::{
    AlacrittyInstance, InstanceModel, JsonRpcRequest, SpawnParams, SendKeysParams,
    ScreenshotParams, NeovimContextParams, ClientInfo, InitializeParams, Tool, JsonRpcError,
};
use crate::alacritty_manager::{AlacrittyManager, registry_wf, strs};
use crate::text::{dec_of, dec_of_int};

verus! {

broadcast use
    vstd::std_specs::vec::group_vec_axioms,
    vstd::seq::group_seq_axioms,
    crate::json::lemma_jvals_index,
    crate::json::lemma_jmembers_index;

/// Model of a decoded request envelope.
pub struct ReqModel {
    pub jsonrpc: Seq<char>,
    pub method: Seq<char>,
    pub params: Option<JVal>,
    pub id: Option<JVal>,
}

impl View for JsonRpcRequest {
    type V = ReqModel;

    open spec fn view(&self) -> ReqModel {
        ReqModel {
            jsonrpc: self.jsonrpc@,
            method: self.method@,
            params: match self.params {
                Option::Some(p) => Option::Some(p@),
                Option::None => Option::None,
            },
            id: match self.id {
                Option::Some(v) => Option::Some(v@),
                Option::None => Option::None,
            },
        }
    }
}

/// An optional envelope member: absent and `null` both mean "not given".
pub open spec fn opt_member(doc: JVal, key: Seq<char>) -> Option<JVal> {
    match jget(doc, key) {
        Option::Some(JVal::Null) => Option::None,
        other => other,
    }
}

/// What a request envelope must hold to be decoded: a JSON object whose
/// `jsonrpc` and `method` members are strings; `params` and `id` are taken
/// as they stand, absent and null members alike as `None`.
pub open spec fn decoded_req(doc: JVal) -> Option<ReqModel> {
    match (jget(doc, "jsonrpc"@), jget(doc, "method"@)) {
        (Option::Some(JVal::Str(j)), Option::Some(JVal::Str(m))) => Option::Some(
            ReqModel { jsonrpc: j, method: m, params: opt_member(doc, "params"@), id:
                opt_member(doc, "id"@) },
        ),
        _ => Option::None,
    }
}

/// The `id` member of a response document: the request's id, `null` where
/// the request carried none or could not be read.
pub open spec fn id_doc(id: Option<JVal>) -> JVal {
    match id {
        Option::Some(v) => v,
        Option::None => JVal::Null,
    }
}

/// An error response document.
pub open spec fn error_doc(code: int, message: Seq<char>, id: Option<JVal>) -> JVal {
    JVal::Obj(
        seq![
            ("jsonrpc"@, JVal::Str("2.0"@)),
            ("result"@, JVal::Null),
            (
                "error"@,
                JVal::Obj(
                    seq![
                        ("code"@, JVal::Num(dec_of_int(code))),
                        ("message"@, JVal::Str(message)),
                        ("data"@, JVal::Null),
                    ],
                ),
            ),
            ("id"@, id_doc(id)),
        ],
    )
}

/// A success response document.
pub open spec fn result_doc(result: JVal, id: Option<JVal>) -> JVal {
    JVal::Obj(
        seq![
            ("jsonrpc"@, JVal::Str("2.0"@)),
            ("result"@, result),
            ("error"@, JVal::Null),
            ("id"@, id_doc(id)),
        ],
    )
}

/// The result document of a successful tool call: one text content block.
pub open spec fn content_doc(text: Seq<char>) -> JVal {
    JVal::Obj(
        seq![
            (
                "content"@,
                JVal::Arr(
                    seq![
                        JVal::Obj(
                            seq![("type"@, JVal::Str("text"@)), ("text"@, JVal::Str(text))],
                        ),
                    ],
                ),
            ),
        ],
    )
}

/// The model of an `Option`al document value.
pub open spec fn opt_doc(v: Option<JsonValue>) -> Option<JVal> {
    match v {
        Option::Some(x) => Option::Some(x@),
        Option::None => Option::None,
    }
}

/// Renders an error response line.
pub fn render_error(code: i32, message: String, id: Option<JsonValue>) -> (r: String)
    ensures
        r@ == render(error_doc(code as int, message@, opt_doc(id))),
{
    let mut inner: Vec<(String, JsonValue)> = Vec::new();
    inner.push((String::from_str("code"), JsonValue::Num(crate::text::i32_to_dec(code))));
    inner.push((String::from_str("message"), JsonValue::Str(message)));
    inner.push((String::from_str("data"), JsonValue::Null));
    let ghost inner_view = inner@;
    let id_val = match id {
        Option::Some(v) => v,
        Option::None => JsonValue::Null,
    };
    let mut outer: Vec<(String, JsonValue)> = Vec::new();
    outer.push((String::from_str("jsonrpc"), JsonValue::Str(String::from_str("2.0"))));
    outer.push((String::from_str("result"), JsonValue::Null));
    outer.push((String::from_str("error"), JsonValue::Obj(inner)));
    outer.push((String::from_str("id"), id_val));
    let doc = JsonValue::Obj(outer);
    proof {
        let target = error_doc(code as int, message@, opt_doc(id));
        assert(jmembers(inner_view)[0] == (inner_view[0].0@, jval(inner_view[0].1)));
        assert(jmembers(inner_view)[1] == (inner_view[1].0@, jval(inner_view[1].1)));
        assert(jmembers(inner_view)[2] == (inner_view[2].0@, jval(inner_view[2].1)));
        assert(jmembers(inner_view) =~~= target->Obj_0[2].1->Obj_0);
        let ov = outer@;
        assert(jmembers(ov)[0] == (ov[0].0@, jval(ov[0].1)));
        assert(jmembers(ov)[1] == (ov[1].0@, jval(ov[1].1)));
        assert(jmembers(ov)[2] == (ov[2].0@, jval(ov[2].1)));
        assert(jmembers(ov)[3] == (ov[3].0@, jval(ov[3].1)));
        assert(jmembers(ov) =~~= target->Obj_0);
        assert(doc@ == target);
    }
    crate::json::to_text(&doc)
}

/// Renders a success response line.
pub fn render_result(result: JsonValue, id: Option<JsonValue>) -> (r: String)
    ensures
        r@ == render(result_doc(result@, opt_doc(id))),
{
    let ghost result_view = result@;
    let id_val = match id {
        Option::Some(v) => v,
        Option::None => JsonValue::Null,
    };
    let mut outer: Vec<(String, JsonValue)> = Vec::new();
    outer.push((String::from_str("jsonrpc"), JsonValue::Str(String::from_str("2.0"))));
    outer.push((String::from_str("result"), result));
    outer.push((String::from_str("error"), JsonValue::Null));
    outer.push((String::from_str("id"), id_val));
    let doc = JsonValue::Obj(outer);
    proof {
        let target = result_doc(result_view, opt_doc(id));
        let ov = outer@;
        assert(jmembers(ov)[0] == (ov[0].0@, jval(ov[0].1)));
        assert(jmembers(ov)[1] == (ov[1].0@, jval(ov[1].1)));
        assert(jmembers(ov)[2] == (ov[2].0@, jval(ov[2].1)));
        assert(jmembers(ov)[3] == (ov[3].0@, jval(ov[3].1)));
        assert(jmembers(ov) =~~= target->Obj_0);
        assert(doc@ == target);
    }
    crate::json::to_text(&doc)
}

/// Wraps a tool result text in its content document.
pub fn content_result(text: String) -> (r: JsonValue)
    ensures
        r@ == content_doc(text@),
{
    let ghost t = text@;
    let mut block: Vec<(String, JsonValue)> = Vec::new();
    block.push((String::from_str("type"), JsonValue::Str(String::from_str("text"))));
    block.push((String::from_str("text"), JsonValue::Str(text)));
    let ghost block_view = block@;
    let mut arr: Vec<JsonValue> = Vec::new();
    arr.push(JsonValue::Obj(block));
    let ghost arr_view = arr@;
    let mut outer: Vec<(String, JsonValue)> = Vec::new();
    outer.push((String::from_str("content"), JsonValue::Arr(arr)));
    let doc = JsonValue::Obj(outer);
    proof {
        let target = content_doc(t);
        assert(jmembers(block_view)[0] == (block_view[0].0@, jval(block_view[0].1)));
        assert(jmembers(block_view)[1] == (block_view[1].0@, jval(block_view[1].1)));
        assert(jmembers(block_view) =~~= target->Obj_0[0].1->Arr_0[0]->Obj_0);
        assert(jvals(arr_view)[0] == jval(arr_view[0]));
        assert(jvals(arr_view) =~~= target->Obj_0[0].1->Arr_0);
        let ov = outer@;
        assert(jmembers(ov)[0] == (ov[0].0@, jval(ov[0].1)));
        assert(jmembers(ov) =~~= target->Obj_0);
        assert(doc@ == target);
    }
    doc
}

/// The document that reports one tracked instance.
pub open spec fn instance_doc(m: InstanceModel) -> JVal {
    JVal::Obj(
        seq![
            ("id"@, JVal::Str(m.id)),
            ("pid"@, JVal::Num(dec_of(m.pid as nat))),
            (
                "window_id"@,
                match m.window_id {
                    Option::Some(w) => JVal::Num(dec_of(w as nat)),
                    Option::None => JVal::Null,
                },
            ),
            ("title"@, JVal::Str(m.title)),
            ("command"@, JVal::Str(m.command)),
            ("created_at"@, JVal::Num(dec_of(m.created_at as nat))),
        ],
    )
}

/// The document that reports a whole registry snapshot.
pub open spec fn instances_doc(s: Seq<InstanceModel>) -> JVal {
    JVal::Arr(Seq::new(s.len(), |i: int| instance_doc(s[i])))
}

/// Builds the report document of one tracked instance.
pub fn build_instance_doc(inst: &AlacrittyInstance) -> (r: JsonValue)
    ensures
        r@ == instance_doc(inst@),
{
    let mut o: Vec<(String, JsonValue)> = Vec::new();
    o.push((String::from_str("id"), JsonValue::Str(inst.id.clone())));
    o.push((String::from_str("pid"), JsonValue::Num(crate::text::u64_to_dec(inst.pid as u64))));
    let win = match inst.window_id {
        Option::Some(w) => JsonValue::Num(crate::text::u64_to_dec(w as u64)),
        Option::None => JsonValue::Null,
    };
    o.push((String::from_str("window_id"), win));
    o.push((String::from_str("title"), JsonValue::Str(inst.title.clone())));
    o.push((String::from_str("command"), JsonValue::Str(inst.command.clone())));
    o.push((String::from_str("created_at"), JsonValue::Num(crate::text::u64_to_dec(
        inst.created_at))));
    let doc = JsonValue::Obj(o);
    proof {
        let target = instance_doc(inst@);
        let ov = o@;
        assert(jmembers(ov)[0] == (ov[0].0@, jval(ov[0].1)));
        assert(jmembers(ov)[1] == (ov[1].0@, jval(ov[1].1)));
        assert(jmembers(ov)[2] == (ov[2].0@, jval(ov[2].1)));
        assert(jmembers(ov)[3] == (ov[3].0@, jval(ov[3].1)));
        assert(jmembers(ov)[4] == (ov[4].0@, jval(ov[4].1)));
        assert(jmembers(ov)[5] == (ov[5].0@, jval(ov[5].1)));
        assert(jmembers(ov) =~~= target->Obj_0);
        assert(doc@ == target);
    }
    doc
}

/// Builds the report document of the whole registry snapshot.
pub fn build_instances_doc(entries: &Vec<AlacrittyInstance>) -> (r: JsonValue)
    ensures
        r@ == instances_doc(crate::alacritty_manager::insts(entries@)),
{
    let ghost m = crate::alacritty_manager::insts(entries@);
    let mut a: Vec<JsonValue> = Vec::new();
    let mut i: usize = 0;
    while i < entries.len()
        invariant
            i <= entries@.len(),
            m == crate::alacritty_manager::insts(entries@),
            a@.len() == i,
            forall|j: int| 0 <= j < i ==> jval(#[trigger] a@[j]) == instance_doc(m[j]),
        decreases entries@.len() - i,
    {
        let d = build_instance_doc(&entries[i]);
        a.push(d);
        i += 1;
    }
    let doc = JsonValue::Arr(a);
    proof {
        assert(jvals(a@) =~~= instances_doc(m)->Arr_0);
        assert(doc@ == instances_doc(m));
    }
    doc
}

/// The text reported by a successful instance listing.
pub open spec fn list_report(s: Seq<InstanceModel>) -> Seq<char> {
    "Found "@ + dec_of(s.len()) + " Alacritty instances:\n"@ + render(instances_doc(s))
}

/// Builds the text reported by a successful instance listing.
pub fn build_list_report(entries: &Vec<AlacrittyInstance>) -> (r: String)
    ensures
        r@ == list_report(crate::alacritty_manager::insts(entries@)),
{
    let mut out = String::from_str("Found ");
    let digits = crate::text::u64_to_dec(entries.len() as u64);
    out.append(digits.as_str());
    out.append(" Alacritty instances:\n");
    let doc = build_instances_doc(entries);
    let body = crate::json::to_text(&doc);
    out.append(body.as_str());
    out
}

/// A schema property of a plain type: its type and its description.
pub open spec fn prop_doc(t: Seq<char>, d: Seq<char>) -> JVal {
    JVal::Obj(seq![("type"@, JVal::Str(t)), ("description"@, JVal::Str(d))])
}

fn build_prop_doc(t: &str, d: &str) -> (r: JsonValue)
    ensures
        r@ == prop_doc(t@, d@),
{
    let mut o: Vec<(String, JsonValue)> = Vec::new();
    o.push((String::from_str("type"), JsonValue::Str(String::from_str(t))));
    o.push((String::from_str("description"), JsonValue::Str(String::from_str(d))));
    let doc = JsonValue::Obj(o);
    proof {
        let ov = o@;
        assert(jmembers(ov)[0] == (ov[0].0@, jval(ov[0].1)));
        assert(jmembers(ov)[1] == (ov[1].0@, jval(ov[1].1)));
        assert(jmembers(ov) =~~= prop_doc(t@, d@)->Obj_0);
        assert(doc@ == prop_doc(t@, d@));
    }
    doc
}

/// The argument schema of a tool: its typed properties, the required ones
/// among them, and no others admitted.
pub open spec fn schema_doc(props: Seq<(Seq<char>, JVal)>, required: Option<Seq<JVal>>)
    -> JVal {
    match required {
        Option::Some(req) => JVal::Obj(
            seq![
                ("type"@, JVal::Str("object"@)),
                ("properties"@, JVal::Obj(props)),
                ("required"@, JVal::Arr(req)),
                ("additionalProperties"@, JVal::Bool(false)),
            ],
        ),
        Option::None => JVal::Obj(
            seq![
                ("type"@, JVal::Str("object"@)),
                ("properties"@, JVal::Obj(props)),
                ("additionalProperties"@, JVal::Bool(false)),
            ],
        ),
    }
}

fn build_schema_doc(props: Vec<(String, JsonValue)>, required: Option<Vec<JsonValue>>) -> (r:
    JsonValue)
    ensures
        r@ == schema_doc(jmembers(props@), match required {
            Option::Some(req) => Option::Some(jvals(req@)),
            Option::None => Option::None,
        }),
{
    let ghost pv = props@;
    let mut o: Vec<(String, JsonValue)> = Vec::new();
    o.push((String::from_str("type"), JsonValue::Str(String::from_str("object"))));
    o.push((String::from_str("properties"), JsonValue::Obj(props)));
    match required {
        Option::Some(req) => {
            let ghost rv = req@;
            o.push((String::from_str("required"), JsonValue::Arr(req)));
            o.push((String::from_str("additionalProperties"), JsonValue::Bool(false)));
            let doc = JsonValue::Obj(o);
            proof {
                let target = schema_doc(jmembers(pv), Option::Some(jvals(rv)));
                let ov = o@;
                assert(jmembers(ov)[0] == (ov[0].0@, jval(ov[0].1)));
                assert(jmembers(ov)[1] == (ov[1].0@, jval(ov[1].1)));
                assert(jmembers(ov)[2] == (ov[2].0@, jval(ov[2].1)));
                assert(jmembers(ov)[3] == (ov[3].0@, jval(ov[3].1)));
                assert(jmembers(ov) =~~= target->Obj_0);
                assert(doc@ == target);
            }
            doc
        },
        Option::None => {
            o.push((String::from_str("additionalProperties"), JsonValue::Bool(false)));
            let doc = JsonValue::Obj(o);
            proof {
                let target = schema_doc(jmembers(pv), Option::None);
                let ov = o@;
                assert(jmembers(ov)[0] == (ov[0].0@, jval(ov[0].1)));
                assert(jmembers(ov)[1] == (ov[1].0@, jval(ov[1].1)));
                assert(jmembers(ov)[2] == (ov[2].0@, jval(ov[2].1)));
                assert(jmembers(ov) =~~= target->Obj_0);
                assert(doc@ == target);
            }
            doc
        },
    }
}

/// The schema property for the spawn tool's argument list.
pub open spec fn args_prop_doc() -> JVal {
    JVal::Obj(
        seq![
            ("type"@, JVal::Str("array"@)),
            ("items"@, JVal::Obj(seq![("type"@, JVal::Str("string"@))])),
            ("description"@, JVal::Str("Arguments for the command"@)),
        ],
    )
}

/// The schema property for the screen-capture format, with its enumerated
/// values and its default.
pub open spec fn format_prop_doc() -> JVal {
    JVal::Obj(
        seq![
            ("type"@, JVal::Str("string"@)),
            ("enum"@, JVal::Arr(seq![JVal::Str("text"@), JVal::Str("image"@)])),
            (
                "description"@,
                JVal::Str(
                    "Format of the screenshot: 'text' for terminal text content, 'image' for visual screenshot"@,
                ),
            ),
            ("default"@, JVal::Str("text"@)),
        ],
    )
}

/// A boolean schema property with a default of true.
pub open spec fn flag_prop_doc(d: Seq<char>) -> JVal {
    JVal::Obj(
        seq![
            ("type"@, JVal::Str("boolean"@)),
            ("description"@, JVal::Str(d)),
            ("default"@, JVal::Bool(true)),
        ],
    )
}

/// The schema property for the editor context line count, with its bounds
/// and its default.
pub open spec fn lines_prop_doc() -> JVal {
    JVal::Obj(
        seq![
            ("type"@, JVal::Str("number"@)),
            ("description"@, JVal::Str("Number of lines around cursor to include"@)),
            ("default"@, JVal::Num("5"@)),
            ("minimum"@, JVal::Num("0"@)),
            ("maximum"@, JVal::Num("50"@)),
        ],
    )
}

fn build_args_prop_doc() -> (r: JsonValue)
    ensures
        r@ == args_prop_doc(),
{
    let mut items: Vec<(String, JsonValue)> = Vec::new();
    items.push((String::from_str("type"), JsonValue::Str(String::from_str("string"))));
    let ghost iv = items@;
    let mut o: Vec<(String, JsonValue)> = Vec::new();
    o.push((String::from_str("type"), JsonValue::Str(String::from_str("array"))));
    o.push((String::from_str("items"), JsonValue::Obj(items)));
    o.push((String::from_str("description"), JsonValue::Str(String::from_str(
        "Arguments for the command"))));
    let doc = JsonValue::Obj(o);
    proof {
        let target = args_prop_doc();
        assert(jmembers(iv)[0] == (iv[0].0@, jval(iv[0].1)));
        assert(jmembers(iv) =~~= target->Obj_0[1].1->Obj_0);
        let ov = o@;
        assert(jmembers(ov)[0] == (ov[0].0@, jval(ov[0].1)));
        assert(jmembers(ov)[1] == (ov[1].0@, jval(ov[1].1)));
        assert(jmembers(ov)[2] == (ov[2].0@, jval(ov[2].1)));
        assert(jmembers(ov) =~~= target->Obj_0);
        assert(doc@ == target);
    }
    doc
}

fn build_format_prop_doc() -> (r: JsonValue)
    ensures
        r@ == format_prop_doc(),
{
    let mut variants: Vec<JsonValue> = Vec::new();
    variants.push(JsonValue::Str(String::from_str("text")));
    variants.push(JsonValue::Str(String::from_str("image")));
    let ghost vv = variants@;
    let mut o: Vec<(String, JsonValue)> = Vec::new();
    o.push((String::from_str("type"), JsonValue::Str(String::from_str("string"))));
    o.push((String::from_str("enum"), JsonValue::Arr(variants)));
    o.push((String::from_str("description"), JsonValue::Str(String::from_str(
        "Format of the screenshot: 'text' for terminal text content, 'image' for visual screenshot"))));
    o.push((String::from_str("default"), JsonValue::Str(String::from_str("text"))));
    let doc = JsonValue::Obj(o);
    proof {
        let target = format_prop_doc();
        assert(jvals(vv)[0] == jval(vv[0]));
        assert(jvals(vv)[1] == jval(vv[1]));
        assert(jvals(vv) =~~= target->Obj_0[1].1->Arr_0);
        let ov = o@;
        assert(jmembers(ov)[0] == (ov[0].0@, jval(ov[0].1)));
        assert(jmembers(ov)[1] == (ov[1].0@, jval(ov[1].1)));
        assert(jmembers(ov)[2] == (ov[2].0@, jval(ov[2].1)));
        assert(jmembers(ov)[3] == (ov[3].0@, jval(ov[3].1)));
        assert(jmembers(ov) =~~= target->Obj_0);
        assert(doc@ == target);
    }
    doc
}

fn build_flag_prop_doc(d: &str) -> (r: JsonValue)
    ensures
        r@ == flag_prop_doc(d@),
{
    let mut o: Vec<(String, JsonValue)> = Vec::new();
    o.push((String::from_str("type"), JsonValue::Str(String::from_str("boolean"))));
    o.push((String::from_str("description"), JsonValue::Str(String::from_str(d))));
    o.push((String::from_str("default"), JsonValue::Bool(true)));
    let doc = JsonValue::Obj(o);
    proof {
        let target = flag_prop_doc(d@);
        let ov = o@;
        assert(jmembers(ov)[0] == (ov[0].0@, jval(ov[0].1)));
        assert(jmembers(ov)[1] == (ov[1].0@, jval(ov[1].1)));
        assert(jmembers(ov)[2] == (ov[2].0@, jval(ov[2].1)));
        assert(jmembers(ov) =~~= target->Obj_0);
        assert(doc@ == target);
    }
    doc
}

fn build_lines_prop_doc() -> (r: JsonValue)
    ensures
        r@ == lines_prop_doc(),
{
    let mut o: Vec<(String, JsonValue)> = Vec::new();
    o.push((String::from_str("type"), JsonValue::Str(String::from_str("number"))));
    o.push((String::from_str("description"), JsonValue::Str(String::from_str(
        "Number of lines around cursor to include"))));
    o.push((String::from_str("default"), JsonValue::Num(String::from_str("5"))));
    o.push((String::from_str("minimum"), JsonValue::Num(String::from_str("0"))));
    o.push((String::from_str("maximum"), JsonValue::Num(String::from_str("50"))));
    let doc = JsonValue::Obj(o);
    proof {
        let target = lines_prop_doc();
        let ov = o@;
        assert(jmembers(ov)[0] == (ov[0].0@, jval(ov[0].1)));
        assert(jmembers(ov)[1] == (ov[1].0@, jval(ov[1].1)));
        assert(jmembers(ov)[2] == (ov[2].0@, jval(ov[2].1)));
        assert(jmembers(ov)[3] == (ov[3].0@, jval(ov[3].1)));
        assert(jmembers(ov)[4] == (ov[4].0@, jval(ov[4].1)));
        assert(jmembers(ov) =~~= target->Obj_0);
        assert(doc@ == target);
    }
    doc
}

/// The argument schema of the listing tool: no arguments.
pub open spec fn list_instances_schema() -> JVal {
    schema_doc(Seq::empty(), Option::None)
}

/// The argument schema of the spawn tool: four optional fields.
pub open spec fn spawn_schema() -> JVal {
    schema_doc(
        seq![
            ("command"@, prop_doc("string"@, "Command to run in the terminal"@)),
            ("args"@, args_prop_doc()),
            (
                "working_directory"@,
                prop_doc("string"@, "Working directory for the terminal"@),
            ),
            ("title"@, prop_doc("string"@, "Title for the terminal window"@)),
        ],
        Option::None,
    )
}

/// The argument schema of the key-injection tool: both fields required.
pub open spec fn send_keys_schema() -> JVal {
    schema_doc(
        seq![
            ("instance_id"@, prop_doc("string"@, "ID of the Alacritty instance"@)),
            (
                "keys"@,
                prop_doc(
                    "string"@,
                    "Keys to send (xdotool format, e.g., 'ctrl+c', 'Return', 'Hello')"@,
                ),
            ),
        ],
        Option::Some(seq![JVal::Str("instance_id"@), JVal::Str("keys"@)]),
    )
}

/// The argument schema of the screen-capture tool.
pub open spec fn screenshot_schema() -> JVal {
    schema_doc(
        seq![
            ("instance_id"@, prop_doc("string"@, "ID of the Alacritty instance"@)),
            ("format"@, format_prop_doc()),
        ],
        Option::Some(seq![JVal::Str("instance_id"@)]),
    )
}

/// The argument schema of the editor-context tool.
pub open spec fn neovim_schema() -> JVal {
    schema_doc(
        seq![
            (
                "instance_id"@,
                prop_doc("string"@, "ID of the Alacritty instance running Neovim"@),
            ),
            (
                "include_diagnostics"@,
                flag_prop_doc("Include LSP diagnostics in the context"@),
            ),
            ("include_buffers"@, flag_prop_doc("Include list of open buffers"@)),
            ("context_lines"@, lines_prop_doc()),
        ],
        Option::Some(seq![JVal::Str("instance_id"@)]),
    )
}

/// Model of one catalogue entry.
pub struct ToolModel {
    pub name: Seq<char>,
    pub description: Seq<char>,
    pub input_schema: JVal,
}

impl View for Tool {
    type V = ToolModel;

    open spec fn view(&self) -> ToolModel {
        ToolModel {
            name: self.name@,
            description: self.description@,
            input_schema: self.input_schema@,
        }
    }
}

/// The fixed tool catalogue, in its declared order.
pub open spec fn catalogue() -> Seq<ToolModel> {
    seq![
        ToolModel {
            name: "list_instances"@,
            description: "List all running Alacritty terminal instances"@,
            input_schema: list_instances_schema(),
        },
        ToolModel {
            name: "spawn_instance"@,
            description: "Spawn a new Alacritty terminal instance"@,
            input_schema: spawn_schema(),
        },
        ToolModel {
            name: "send_keys"@,
            description: "Send key commands to an Alacritty instance"@,
            input_schema: send_keys_schema(),
        },
        ToolModel {
            name: "screenshot_instance"@,
            description: "Take a screenshot of an Alacritty instance"@,
            input_schema: screenshot_schema(),
        },
        ToolModel {
            name: "get_neovim_context"@,
            description: "Extract comprehensive Neovim context including cursor position, diagnostics, open buffers, and LSP status"@,
            input_schema: neovim_schema(),
        },
    ]
}

/// The models of a sequence of catalogue entries.
pub open spec fn tool_models(ts: Seq<Tool>) -> Seq<ToolModel> {
    Seq::new(ts.len(), |i: int| ts[i]@)
}

fn build_list_instances_schema() -> (r: JsonValue)
    ensures
        r@ == list_instances_schema(),
{
    let props: Vec<(String, JsonValue)> = Vec::new();
    let r = build_schema_doc(props, Option::None);
    proof {
        assert(jmembers(Seq::<(String, JsonValue)>::empty()) =~= Seq::<(Seq<char>,
            JVal)>::empty());
    }
    r
}

fn build_spawn_schema() -> (r: JsonValue)
    ensures
        r@ == spawn_schema(),
{
    let mut props: Vec<(String, JsonValue)> = Vec::new();
    props.push((String::from_str("command"), build_prop_doc(
        "string", "Command to run in the terminal")));
    props.push((String::from_str("args"), build_args_prop_doc()));
    props.push((String::from_str("working_directory"), build_prop_doc(
        "string", "Working directory for the terminal")));
    props.push((String::from_str("title"), build_prop_doc(
        "string", "Title for the terminal window")));
    let ghost pv = props@;
    let r = build_schema_doc(props, Option::None);
    proof {
        assert(jmembers(pv)[0] == (pv[0].0@, jval(pv[0].1)));
        assert(jmembers(pv)[1] == (pv[1].0@, jval(pv[1].1)));
        assert(jmembers(pv)[2] == (pv[2].0@, jval(pv[2].1)));
        assert(jmembers(pv)[3] == (pv[3].0@, jval(pv[3].1)));
        assert(jmembers(pv) =~~= spawn_schema()->Obj_0[1].1->Obj_0);
        assert(r@ == spawn_schema());
    }
    r
}

fn build_send_keys_schema() -> (r: JsonValue)
    ensures
        r@ == send_keys_schema(),
{
    let mut props: Vec<(String, JsonValue)> = Vec::new();
    props.push((String::from_str("instance_id"), build_prop_doc(
        "string", "ID of the Alacritty instance")));
    props.push((String::from_str("keys"), build_prop_doc(
        "string", "Keys to send (xdotool format, e.g., 'ctrl+c', 'Return', 'Hello')")));
    let ghost pv = props@;
    let mut req: Vec<JsonValue> = Vec::new();
    req.push(JsonValue::Str(String::from_str("instance_id")));
    req.push(JsonValue::Str(String::from_str("keys")));
    let ghost rv = req@;
    let r = build_schema_doc(props, Option::Some(req));
    proof {
        assert(jmembers(pv)[0] == (pv[0].0@, jval(pv[0].1)));
        assert(jmembers(pv)[1] == (pv[1].0@, jval(pv[1].1)));
        assert(jmembers(pv) =~~= send_keys_schema()->Obj_0[1].1->Obj_0);
        assert(jvals(rv)[0] == jval(rv[0]));
        assert(jvals(rv)[1] == jval(rv[1]));
        assert(jvals(rv) =~~= send_keys_schema()->Obj_0[2].1->Arr_0);
        assert(r@ == send_keys_schema());
    }
    r
}

fn build_screenshot_schema() -> (r: JsonValue)
    ensures
        r@ == screenshot_schema(),
{
    let mut props: Vec<(String, JsonValue)> = Vec::new();
    props.push((String::from_str("instance_id"), build_prop_doc(
        "string", "ID of the Alacritty instance")));
    props.push((String::from_str("format"), build_format_prop_doc()));
    let ghost pv = props@;
    let mut req: Vec<JsonValue> = Vec::new();
    req.push(JsonValue::Str(String::from_str("instance_id")));
    let ghost rv = req@;
    let r = build_schema_doc(props, Option::Some(req));
    proof {
        assert(jmembers(pv)[0] == (pv[0].0@, jval(pv[0].1)));
        assert(jmembers(pv)[1] == (pv[1].0@, jval(pv[1].1)));
        assert(jmembers(pv) =~~= screenshot_schema()->Obj_0[1].1->Obj_0);
        assert(jvals(rv)[0] == jval(rv[0]));
        assert(jvals(rv) =~~= screenshot_schema()->Obj_0[2].1->Arr_0);
        assert(r@ == screenshot_schema());
    }
    r
}

fn build_neovim_schema() -> (r: JsonValue)
    ensures
        r@ == neovim_schema(),
{
    let mut props: Vec<(String, JsonValue)> = Vec::new();
    props.push((String::from_str("instance_id"), build_prop_doc(
        "string", "ID of the Alacritty instance running Neovim")));
    props.push((String::from_str("include_diagnostics"), build_flag_prop_doc(
        "Include LSP diagnostics in the context")));
    props.push((String::from_str("include_buffers"), build_flag_prop_doc(
        "Include list of open buffers")));
    props.push((String::from_str("context_lines"), build_lines_prop_doc()));
    let ghost pv = props@;
    let mut req: Vec<JsonValue> = Vec::new();
    req.push(JsonValue::Str(String::from_str("instance_id")));
    let ghost rv = req@;
    let r = build_schema_doc(props, Option::Some(req));
    proof {
        assert(jmembers(pv)[0] == (pv[0].0@, jval(pv[0].1)));
        assert(jmembers(pv)[1] == (pv[1].0@, jval(pv[1].1)));
        assert(jmembers(pv)[2] == (pv[2].0@, jval(pv[2].1)));
        assert(jmembers(pv)[3] == (pv[3].0@, jval(pv[3].1)));
        assert(jmembers(pv) =~~= neovim_schema()->Obj_0[1].1->Obj_0);
        assert(jvals(rv)[0] == jval(rv[0]));
        assert(jvals(rv) =~~= neovim_schema()->Obj_0[2].1->Arr_0);
        assert(r@ == neovim_schema());
    }
    r
}

/// What the server offers a client: the fixed tool catalogue.
pub fn server_capabilities() -> (r: crate::types::ServerCapabilities)
    ensures
        tool_models(r.tools@) == catalogue(),
{
    crate::types::ServerCapabilities { tools: get_tools() }
}

/// The fixed tool catalogue as structured entries.
pub fn get_tools() -> (r: Vec<Tool>)
    ensures
        tool_models(r@) == catalogue(),
{
    let mut out: Vec<Tool> = Vec::new();
    out.push(Tool {
        name: String::from_str("list_instances"),
        description: String::from_str("List all running Alacritty terminal instances"),
        input_schema: build_list_instances_schema(),
    });
    out.push(Tool {
        name: String::from_str("spawn_instance"),
        description: String::from_str("Spawn a new Alacritty terminal instance"),
        input_schema: build_spawn_schema(),
    });
    out.push(Tool {
        name: String::from_str("send_keys"),
        description: String::from_str("Send key commands to an Alacritty instance"),
        input_schema: build_send_keys_schema(),
    });
    out.push(Tool {
        name: String::from_str("screenshot_instance"),
        description: String::from_str("Take a screenshot of an Alacritty instance"),
        input_schema: build_screenshot_schema(),
    });
    out.push(Tool {
        name: String::from_str("get_neovim_context"),
        description: String::from_str(
            "Extract comprehensive Neovim context including cursor position, diagnostics, open buffers, and LSP status"),
        input_schema: build_neovim_schema(),
    });
    proof {
        assert(tool_models(out@) =~~= catalogue());
    }
    out
}

/// The document listing one catalogue entry.
pub open spec fn tool_doc(m: ToolModel) -> JVal {
    JVal::Obj(
        seq![
            ("name"@, JVal::Str(m.name)),
            ("description"@, JVal::Str(m.description)),
            ("input_schema"@, m.input_schema),
        ],
    )
}

/// The document listing the whole catalogue.
pub open spec fn tools_doc() -> JVal {
    JVal::Arr(Seq::new(catalogue().len(), |i: int| tool_doc(catalogue()[i])))
}

/// Builds the document listing the whole catalogue.
pub fn build_tools_doc() -> (r: JsonValue)
    ensures
        r@ == tools_doc(),
{
    let tools = get_tools();
    let mut a: Vec<JsonValue> = Vec::new();
    let mut i: usize = 0;
    while i < tools.len()
        invariant
            i <= tools@.len(),
            tool_models(tools@) == catalogue(),
            a@.len() == i,
            forall|j: int| 0 <= j < i ==> jval(#[trigger] a@[j]) == tool_doc(catalogue()[j]),
        decreases tools@.len() - i,
    {
        let t = &tools[i];
        let mut o: Vec<(String, JsonValue)> = Vec::new();
        o.push((String::from_str("name"), JsonValue::Str(t.name.clone())));
        o.push((String::from_str("description"), JsonValue::Str(t.description.clone())));
        o.push((String::from_str("input_schema"), t.input_schema.clone()));
        let doc = JsonValue::Obj(o);
        proof {
            assert(tool_models(tools@)[i as int] == tools@[i as int]@);
            let target = tool_doc(catalogue()[i as int]);
            let ov = o@;
            assert(jmembers(ov)[0] == (ov[0].0@, jval(ov[0].1)));
            assert(jmembers(ov)[1] == (ov[1].0@, jval(ov[1].1)));
            assert(jmembers(ov)[2] == (ov[2].0@, jval(ov[2].1)));
            assert(jmembers(ov) =~~= target->Obj_0);
            assert(doc@ == target);
        }
        a.push(doc);
        i += 1;
    }
    let doc = JsonValue::Arr(a);
    proof {
        assert(tools@.len() == catalogue().len());
        assert(jvals(a@) =~~= tools_doc()->Arr_0);
        assert(doc@ == tools_doc());
    }
    doc
}

/// Reads a request envelope out of a decoded document.
pub fn decode_request(v: &JsonValue) -> (r: Option<JsonRpcRequest>)
    ensures
        match r {
            Option::Some(req) => decoded_req(v@) == Option::Some(req@),
            Option::None => decoded_req(v@) is None,
        },
{
    let jsonrpc = match v.obj_get("jsonrpc") {
        Option::Some(x) => match x.as_text() {
            Option::Some(s) => s.clone(),
            Option::None => {
                return Option::None;
            },
        },
        Option::None => {
            return Option::None;
        },
    };
    let method = match v.obj_get("method") {
        Option::Some(x) => match x.as_text() {
            Option::Some(s) => s.clone(),
            Option::None => {
                return Option::None;
            },
        },
        Option::None => {
            return Option::None;
        },
    };
    let params = match v.obj_get("params") {
        Option::Some(x) => match x {
            JsonValue::Null => Option::None,
            _ => Option::Some(x.clone()),
        },
        Option::None => Option::None,
    };
    let id = match v.obj_get("id") {
        Option::Some(x) => match x {
            JsonValue::Null => Option::None,
            _ => Option::Some(x.clone()),
        },
        Option::None => Option::None,
    };
    Option::Some(JsonRpcRequest { jsonrpc, method, params, id })
}

/// Model of the spawn tool's arguments.
pub struct SpawnModel {
    pub command: Option<Seq<char>>,
    pub args: Option<Seq<Seq<char>>>,
    pub working_directory: Option<Seq<char>>,
    pub title: Option<Seq<char>>,
}

impl View for SpawnParams {
    type V = SpawnModel;

    open spec fn view(&self) -> SpawnModel {
        SpawnModel {
            command: match self.command {
                Option::Some(s) => Option::Some(s@),
                Option::None => Option::None,
            },
            args: match self.args {
                Option::Some(a) => Option::Some(strs(a@)),
                Option::None => Option::None,
            },
            working_directory: match self.working_directory {
                Option::Some(s) => Option::Some(s@),
                Option::None => Option::None,
            },
            title: match self.title {
                Option::Some(s) => Option::Some(s@),
                Option::None => Option::None,
            },
        }
    }
}

/// An optional string member: absent and `null` both mean "not given"; any
/// other kind than a string is a schema violation.
pub open spec fn opt_str_field(args: JVal, key: Seq<char>) -> Option<Option<Seq<char>>> {
    match jget(args, key) {
        Option::None => Option::Some(Option::None),
        Option::Some(JVal::Null) => Option::Some(Option::None),
        Option::Some(JVal::Str(s)) => Option::Some(Option::Some(s)),
        Option::Some(_) => Option::None,
    }
}

/// The spawn tool's optional argument list: an array of strings, when given.
pub open spec fn opt_args_field(args: JVal) -> Option<Option<Seq<Seq<char>>>> {
    match jget(args, "args"@) {
        Option::None => Option::Some(Option::None),
        Option::Some(JVal::Null) => Option::Some(Option::None),
        Option::Some(JVal::Arr(elems)) => if forall|i: int|
            0 <= i < elems.len() ==> (#[trigger] elems[i]) is Str {
            Option::Some(Option::Some(elems.map_values(|e: JVal| e->Str_0)))
        } else {
            Option::None
        },
        Option::Some(_) => Option::None,
    }
}

/// What the spawn tool accepts: each of its four members optional, each of
/// the declared type where given.
pub open spec fn spawn_args(args: JVal) -> Option<SpawnModel> {
    match (opt_str_field(args, "command"@), opt_args_field(args), opt_str_field(
        args, "working_directory"@), opt_str_field(args, "title"@)) {
        (Option::Some(c), Option::Some(a), Option::Some(w), Option::Some(t)) => Option::Some(
            SpawnModel { command: c, args: a, working_directory: w, title: t },
        ),
        _ => Option::None,
    }
}

/// What the key-injection tool accepts: both members present as strings.
pub open spec fn send_keys_args(args: JVal) -> Option<(Seq<char>, Seq<char>)> {
    match (jget(args, "instance_id"@), jget(args, "keys"@)) {
        (Option::Some(JVal::Str(i)), Option::Some(JVal::Str(k))) => Option::Some((i, k)),
        _ => Option::None,
    }
}

/// What the screen-capture tool accepts: a string id, and an optional
/// string format whose value is checked against its enumeration separately.
pub open spec fn screenshot_args(args: JVal) -> Option<(Seq<char>, Option<Seq<char>>)> {
    match (jget(args, "instance_id"@), opt_str_field(args, "format"@)) {
        (Option::Some(JVal::Str(i)), Option::Some(f)) => Option::Some((i, f)),
        _ => Option::None,
    }
}

/// Model of the editor-context tool's arguments, defaults applied.
pub struct NeovimModel {
    pub instance_id: Seq<char>,
    pub include_diagnostics: bool,
    pub include_buffers: bool,
    pub context_lines: u32,
}

impl View for NeovimContextParams {
    type V = NeovimModel;

    open spec fn view(&self) -> NeovimModel {
        NeovimModel {
            instance_id: self.instance_id@,
            include_diagnostics: self.include_diagnostics,
            include_buffers: self.include_buffers,
            context_lines: self.context_lines,
        }
    }
}

/// An optional boolean member with a default of true.
pub open spec fn opt_flag_field(args: JVal, key: Seq<char>) -> Option<bool> {
    match jget(args, key) {
        Option::None => Option::Some(true),
        Option::Some(JVal::Null) => Option::Some(true),
        Option::Some(JVal::Bool(b)) => Option::Some(b),
        Option::Some(_) => Option::None,
    }
}

/// The line count around the cursor: a whole number up to fifty, with a
/// default of five.
pub open spec fn opt_lines_field(args: JVal) -> Option<u32> {
    match jget(args, "context_lines"@) {
        Option::None => Option::Some(5u32),
        Option::Some(JVal::Null) => Option::Some(5u32),
        Option::Some(JVal::Num(lex)) => if crate::text::is_digits(lex) && lex.len() > 0
            && crate::text::digits_val(lex) <= 50 {
            Option::Some(crate::text::digits_val(lex) as u32)
        } else {
            Option::None
        },
        Option::Some(_) => Option::None,
    }
}

/// What the editor-context tool accepts.
pub open spec fn neovim_args(args: JVal) -> Option<NeovimModel> {
    match (jget(args, "instance_id"@), opt_flag_field(args, "include_diagnostics"@),
    opt_flag_field(args, "include_buffers"@), opt_lines_field(args)) {
        (Option::Some(JVal::Str(i)), Option::Some(d), Option::Some(b), Option::Some(l)) =>
            Option::Some(
            NeovimModel {
                instance_id: i,
                include_diagnostics: d,
                include_buffers: b,
                context_lines: l,
            },
        ),
        _ => Option::None,
    }
}

/// Reads one optional string member.
fn read_opt_str(args: &JsonValue, key: &str) -> (r: Option<Option<String>>)
    ensures
        match r {
            Option::Some(Option::Some(s)) => opt_str_field(args@, key@) == Option::Some(
                Option::Some(s@)),
            Option::Some(Option::None) => opt_str_field(args@, key@) == Option::Some(
                Option::<Seq<char>>::None),
            Option::None => opt_str_field(args@, key@) is None,
        },
{
    match args.obj_get(key) {
        Option::None => Option::Some(Option::None),
        Option::Some(v) => match v {
            JsonValue::Null => Option::Some(Option::None),
            JsonValue::Str(s) => Option::Some(Option::Some(s.clone())),
            _ => Option::None,
        },
    }
}

/// Reads the spawn tool's arguments, or rejects them.
#[verifier::loop_isolation(false)]
pub fn parse_spawn_params(args: &JsonValue) -> (r: Option<SpawnParams>)
    ensures
        match r {
            Option::Some(p) => spawn_args(args@) == Option::Some(p@),
            Option::None => spawn_args(args@) is None,
        },
{
    let command = match read_opt_str(args, "command") {
        Option::Some(c) => c,
        Option::None => {
            return Option::None;
        },
    };
    let arg_list: Option<Vec<String>> = match args.obj_get("args") {
        Option::None => Option::None,
        Option::Some(v) => match v {
            JsonValue::Null => Option::None,
            JsonValue::Arr(elems) => {
                let ghost ev = jvals(elems@);
                let mut out: Vec<String> = Vec::new();
                let mut i: usize = 0;
                while i < elems.len()
                    invariant
                        i <= elems@.len(),
                        ev == jvals(elems@),
                        out@.len() == i,
                        forall|j: int| 0 <= j < i ==> ev[j] is Str,
                        forall|j: int| 0 <= j < i ==> (#[trigger] out@[j])@ == ev[j]->Str_0,
                    decreases elems@.len() - i,
                {
                    match &elems[i] {
                        JsonValue::Str(s) => {
                            out.push(s.clone());
                        },
                        _ => {
                            proof {
                                let x = elems@[i as int];
                                assert(ev[i as int] == jval(x));
                                match x {
                                    JsonValue::Str(_) => {
                                        assert(false);
                                    },
                                    _ => {
                                        assert(!(jval(x) is Str));
                                    },
                                }
                            }
                            return Option::None;
                        },
                    }
                    i += 1;
                }
                proof {
                    assert(strs(out@) =~= ev.map_values(|e: JVal| e->Str_0));
                }
                Option::Some(out)
            },
            _ => {
                return Option::None;
            },
        },
    };
    let working_directory = match read_opt_str(args, "working_directory") {
        Option::Some(w) => w,
        Option::None => {
            return Option::None;
        },
    };
    let title = match read_opt_str(args, "title") {
        Option::Some(t) => t,
        Option::None => {
            return Option::None;
        },
    };
    Option::Some(SpawnParams { command, args: arg_list, working_directory, title })
}

/// Reads the key-injection tool's arguments, or rejects them.
pub fn parse_send_keys_params(args: &JsonValue) -> (r: Option<SendKeysParams>)
    ensures
        match r {
            Option::Some(p) => send_keys_args(args@) == Option::Some((p.instance_id@, p.keys@)),
            Option::None => send_keys_args(args@) is None,
        },
{
    let instance_id = match args.obj_get("instance_id") {
        Option::Some(v) => match v.as_text() {
            Option::Some(s) => s.clone(),
            Option::None => {
                return Option::None;
            },
        },
        Option::None => {
            return Option::None;
        },
    };
    let keys = match args.obj_get("keys") {
        Option::Some(v) => match v.as_text() {
            Option::Some(s) => s.clone(),
            Option::None => {
                return Option::None;
            },
        },
        Option::None => {
            return Option::None;
        },
    };
    Option::Some(SendKeysParams { instance_id, keys })
}

/// Reads the screen-capture tool's arguments, or rejects them.
pub fn parse_screenshot_params(args: &JsonValue) -> (r: Option<ScreenshotParams>)
    ensures
        match r {
            Option::Some(p) => screenshot_args(args@) == Option::Some(
                (p.instance_id@, match p.format {
                    Option::Some(f) => Option::Some(f@),
                    Option::None => Option::None,
                }),
            ),
            Option::None => screenshot_args(args@) is None,
        },
{
    let instance_id = match args.obj_get("instance_id") {
        Option::Some(v) => match v.as_text() {
            Option::Some(s) => s.clone(),
            Option::None => {
                return Option::None;
            },
        },
        Option::None => {
            return Option::None;
        },
    };
    let format = match read_opt_str(args, "format") {
        Option::Some(f) => f,
        Option::None => {
            return Option::None;
        },
    };
    Option::Some(ScreenshotParams { instance_id, format })
}

/// Reads the editor-context tool's arguments, defaults applied, or rejects
/// them.
pub fn parse_neovim_params(args: &JsonValue) -> (r: Option<NeovimContextParams>)
    ensures
        match r {
            Option::Some(p) => neovim_args(args@) == Option::Some(p@),
            Option::None => neovim_args(args@) is None,
        },
{
    let instance_id = match args.obj_get("instance_id") {
        Option::Some(v) => match v.as_text() {
            Option::Some(s) => s.clone(),
            Option::None => {
                return Option::None;
            },
        },
        Option::None => {
            return Option::None;
        },
    };
    let include_diagnostics = match args.obj_get("include_diagnostics") {
        Option::None => true,
        Option::Some(v) => match v {
            JsonValue::Null => true,
            JsonValue::Bool(b) => *b,
            _ => {
                return Option::None;
            },
        },
    };
    let include_buffers = match args.obj_get("include_buffers") {
        Option::None => true,
        Option::Some(v) => match v {
            JsonValue::Null => true,
            JsonValue::Bool(b) => *b,
            _ => {
                return Option::None;
            },
        },
    };
    let context_lines: u32 = match args.obj_get("context_lines") {
        Option::None => 5,
        Option::Some(v) => match v {
            JsonValue::Null => 5,
            JsonValue::Num(lex) => {
                match crate::text::parse_u32(lex.as_str()) {
                    Option::Some(n) if n <= 50 => n,
                    _ => {
                        return Option::None;
                    },
                }
            },
            _ => {
                return Option::None;
            },
        },
    };
    Option::Some(NeovimContextParams {
        instance_id,
        include_diagnostics,
        include_buffers,
        context_lines,
    })
}

/// The handshake's success document.
pub open spec fn init_result_doc() -> JVal {
    JVal::Obj(
        seq![
            ("protocolVersion"@, JVal::Str("2024-11-05"@)),
            ("capabilities"@, JVal::Obj(seq![("tools"@, tools_doc())])),
            (
                "serverInfo"@,
                JVal::Obj(
                    seq![
                        ("name"@, JVal::Str("alacritty-mcp"@)),
                        ("version"@, JVal::Str("0.1.0"@)),
                    ],
                ),
            ),
        ],
    )
}

/// The catalogue listing's success document.
pub open spec fn tools_result_doc() -> JVal {
    JVal::Obj(seq![("tools"@, tools_doc())])
}

fn build_init_result_doc() -> (r: JsonValue)
    ensures
        r@ == init_result_doc(),
{
    let mut caps: Vec<(String, JsonValue)> = Vec::new();
    caps.push((String::from_str("tools"), build_tools_doc()));
    let ghost cv = caps@;
    let mut info: Vec<(String, JsonValue)> = Vec::new();
    info.push((String::from_str("name"), JsonValue::Str(String::from_str("alacritty-mcp"))));
    info.push((String::from_str("version"), JsonValue::Str(String::from_str("0.1.0"))));
    let ghost iv = info@;
    let mut o: Vec<(String, JsonValue)> = Vec::new();
    o.push((String::from_str("protocolVersion"), JsonValue::Str(String::from_str(
        "2024-11-05"))));
    o.push((String::from_str("capabilities"), JsonValue::Obj(caps)));
    o.push((String::from_str("serverInfo"), JsonValue::Obj(info)));
    let doc = JsonValue::Obj(o);
    proof {
        let target = init_result_doc();
        assert(jmembers(cv)[0] == (cv[0].0@, jval(cv[0].1)));
        assert(jmembers(cv) =~~= target->Obj_0[1].1->Obj_0);
        assert(jmembers(iv)[0] == (iv[0].0@, jval(iv[0].1)));
        assert(jmembers(iv)[1] == (iv[1].0@, jval(iv[1].1)));
        assert(jmembers(iv) =~~= target->Obj_0[2].1->Obj_0);
        let ov = o@;
        assert(jmembers(ov)[0] == (ov[0].0@, jval(ov[0].1)));
        assert(jmembers(ov)[1] == (ov[1].0@, jval(ov[1].1)));
        assert(jmembers(ov)[2] == (ov[2].0@, jval(ov[2].1)));
        assert(jmembers(ov) =~~= target->Obj_0);
        assert(doc@ == target);
    }
    doc
}

fn build_tools_result_doc() -> (r: JsonValue)
    ensures
        r@ == tools_result_doc(),
{
    let mut o: Vec<(String, JsonValue)> = Vec::new();
    o.push((String::from_str("tools"), build_tools_doc()));
    let doc = JsonValue::Obj(o);
    proof {
        let ov = o@;
        assert(jmembers(ov)[0] == (ov[0].0@, jval(ov[0].1)));
        assert(jmembers(ov) =~~= tools_result_doc()->Obj_0);
        assert(doc@ == tools_result_doc());
    }
    doc
}

/// What a handshake body must hold to be accepted: a protocol version, a
/// capability object, and the client's name and version.
pub open spec fn valid_initialize(params: Option<JVal>) -> bool {
    match params {
        Option::Some(p) => {
            &&& jget(p, "protocolVersion"@) matches Option::Some(JVal::Str(_))
            &&& jget(p, "capabilities"@) matches Option::Some(JVal::Obj(_))
            &&& match jget(p, "clientInfo"@) {
                Option::Some(ci) => jget(ci, "name"@) matches Option::Some(JVal::Str(_))
                    && jget(ci, "version"@) matches Option::Some(JVal::Str(_)),
                Option::None => false,
            }
        },
        Option::None => false,
    }
}

/// Reads a handshake body, or rejects it.
pub fn parse_initialize_params(params: &Option<JsonValue>) -> (r: Option<InitializeParams>)
    ensures
        match r {
            Option::Some(ip) => {
                &&& valid_initialize(opt_doc(*params))
                &&& jget(params->0@, "protocolVersion"@) == Option::Some(JVal::Str(
                    ip.protocol_version@))
                &&& jget(params->0@, "capabilities"@) == Option::Some(ip.capabilities@)
                &&& match jget(params->0@, "clientInfo"@) {
                    Option::Some(ci) => jget(ci, "name"@) == Option::Some(JVal::Str(
                        ip.client_info.name@)) && jget(ci, "version"@) == Option::Some(
                        JVal::Str(ip.client_info.version@)),
                    Option::None => false,
                }
            },
            Option::None => !valid_initialize(opt_doc(*params)),
        },
{
    let p = match params {
        Option::Some(p) => p,
        Option::None => {
            return Option::None;
        },
    };
    let protocol_version = match p.obj_get("protocolVersion") {
        Option::Some(v) => match v.as_text() {
            Option::Some(s) => s.clone(),
            Option::None => {
                return Option::None;
            },
        },
        Option::None => {
            return Option::None;
        },
    };
    let capabilities = match p.obj_get("capabilities") {
        Option::Some(v) => match v {
            JsonValue::Obj(_) => v.clone(),
            _ => {
                return Option::None;
            },
        },
        Option::None => {
            return Option::None;
        },
    };
    let ci = match p.obj_get("clientInfo") {
        Option::Some(v) => v,
        Option::None => {
            return Option::None;
        },
    };
    let name = match ci.obj_get("name") {
        Option::Some(v) => match v.as_text() {
            Option::Some(s) => s.clone(),
            Option::None => {
                return Option::None;
            },
        },
        Option::None => {
            return Option::None;
        },
    };
    let version = match ci.obj_get("version") {
        Option::Some(v) => match v.as_text() {
            Option::Some(s) => s.clone(),
            Option::None => {
                return Option::None;
            },
        },
        Option::None => {
            return Option::None;
        },
    };
    Option::Some(InitializeParams {
        protocol_version,
        capabilities,
        client_info: ClientInfo { name, version },
    })
}

/// The launcher's full argument list: the title, then the working
/// directory where given, then the command and its arguments where given,
/// then the correlation tag.
pub open spec fn launch_argv(
    title: Seq<char>,
    wd: Option<Seq<char>>,
    command: Option<Seq<char>>,
    cargs: Seq<Seq<char>>,
    tag: Seq<char>,
) -> Seq<Seq<char>> {
    seq!["--title"@, title] + (match wd {
        Option::Some(w) => seq!["--working-directory"@, w],
        Option::None => Seq::empty(),
    }) + (match command {
        Option::Some(c) => seq!["--command"@, c] + cargs,
        Option::None => Seq::empty(),
    }) + seq!["--class"@, tag]
}

/// Builds the launcher's full argument list.
#[verifier::loop_isolation(false)]
fn build_launch_argv(
    title: &String,
    wd: &Option<String>,
    command: &Option<String>,
    cargs: &Option<Vec<String>>,
    tag: &String,
) -> (r: Vec<String>)
    ensures
        strs(r@) == launch_argv(title@, match wd {
            Option::Some(w) => Option::Some(w@),
            Option::None => Option::None,
        }, match command {
            Option::Some(c) => Option::Some(c@),
            Option::None => Option::None,
        }, match cargs {
            Option::Some(a) => strs(a@),
            Option::None => Seq::empty(),
        }, tag@),
{
    let ghost wdm: Option<Seq<char>> = match wd {
        Option::Some(w) => Option::Some(w@),
        Option::None => Option::None,
    };
    let ghost cm: Option<Seq<char>> = match command {
        Option::Some(c) => Option::Some(c@),
        Option::None => Option::None,
    };
    let ghost am: Seq<Seq<char>> = match cargs {
        Option::Some(a) => strs(a@),
        Option::None => Seq::empty(),
    };
    let mut out: Vec<String> = Vec::new();
    out.push(String::from_str("--title"));
    out.push(title.clone());
    proof {
        assert(strs(out@) =~= seq!["--title"@, title@]);
    }
    let mut middle: Vec<String> = Vec::new();
    match wd {
        Option::Some(w) => {
            middle.push(String::from_str("--working-directory"));
            middle.push(w.clone());
            proof {
                assert(strs(middle@) =~= seq!["--working-directory"@, w@]);
            }
        },
        Option::None => {
            proof {
                assert(strs(middle@) =~= Seq::<Seq<char>>::empty());
            }
        },
    }
    let ghost mid_model = strs(middle@);
    let ghost out_before_mid = strs(out@);
    out.append(&mut middle);
    proof {
        lemma_strs_concat(out_before_mid, mid_model, strs(out@));
    }
    let mut cmdpart: Vec<String> = Vec::new();
    match command {
        Option::Some(c) => {
            cmdpart.push(String::from_str("--command"));
            cmdpart.push(c.clone());
            proof {
                assert(strs(cmdpart@) =~= seq!["--command"@, c@]);
            }
            match cargs {
                Option::Some(a) => {
                    let ghost head = strs(cmdpart@);
                    let mut i: usize = 0;
                    while i < a.len()
                        invariant
                            i <= a@.len(),
                            head == seq!["--command"@, c@],
                            strs(cmdpart@) == head + strs(a@.subrange(0, i as int)),
                        decreases a@.len() - i,
                    {
                        let ghost prev = cmdpart@;
                        let cloned = a[i].clone();
                        cmdpart.push(cloned);
                        proof {
                            let target = head + strs(a@.subrange(0, i + 1));
                            assert forall|j: int| 0 <= j < cmdpart@.len() implies strs(
                                cmdpart@)[j] == target[j] by {
                                if j < prev.len() {
                                    assert(cmdpart@[j] == prev[j]);
                                    assert(strs(prev)[j] == (head + strs(
                                        a@.subrange(0, i as int)))[j]);
                                    if j >= head.len() {
                                        assert(strs(a@.subrange(0, i as int))[j - 2]
                                            == a@.subrange(0, i as int)[j - 2]@);
                                        assert(strs(a@.subrange(0, i + 1))[j - 2]
                                            == a@.subrange(0, i + 1)[j - 2]@);
                                    }
                                } else {
                                    assert(strs(a@.subrange(0, i + 1))[j - 2]
                                        == a@.subrange(0, i + 1)[j - 2]@);
                                }
                            }
                            assert(strs(cmdpart@) =~= target);
                        }
                        i += 1;
                    }
                    proof {
                        assert(a@.subrange(0, a@.len() as int) =~= a@);
                        assert(strs(cmdpart@) =~= head + strs(a@));
                    }
                },
                Option::None => {},
            }
        },
        Option::None => {
            proof {
                assert(strs(cmdpart@) =~= Seq::<Seq<char>>::empty());
            }
        },
    }
    let ghost cmd_model = strs(cmdpart@);
    let ghost out_before_cmd = strs(out@);
    out.append(&mut cmdpart);
    proof {
        lemma_strs_concat(out_before_cmd, cmd_model, strs(out@));
    }
    let mut tail: Vec<String> = Vec::new();
    tail.push(String::from_str("--class"));
    tail.push(tag.clone());
    proof {
        assert(strs(tail@) =~= seq!["--class"@, tag@]);
    }
    let ghost tail_model = strs(tail@);
    let ghost out_before_tail = strs(out@);
    out.append(&mut tail);
    proof {
        lemma_strs_concat(out_before_tail, tail_model, strs(out@));
        assert(cm is Some && cargs is Some ==> cmd_model == seq!["--command"@, cm->0] + am);
        assert(strs(out@) =~= launch_argv(title@, wdm, cm, am, tag@));
    }
    out
}

proof fn lemma_strs_concat(a: Seq<Seq<char>>, b: Seq<Seq<char>>, c: Seq<Seq<char>>)
    requires
        exists|va: Seq<String>, vb: Seq<String>|
            a == strs(va) && b == strs(vb) && #[trigger] strs(va + vb) == c,
    ensures
        c == a + b,
{
    let (va, vb) = choose|va: Seq<String>, vb: Seq<String>|
        a == strs(va) && b == strs(vb) && #[trigger] strs(va + vb) == c;
    assert(strs(va + vb) =~= strs(va) + strs(vb));
}

/// The default title of a spawned instance: a fixed prefix and the first
/// eight characters of its fresh id.
pub open spec fn default_spawn_title(id: Seq<char>) -> Seq<char> {
    "alacritty-mcp-"@ + id.subrange(0, 8)
}

/// The correlation tag attached to a launch, embedding the whole id.
pub open spec fn class_tag(id: Seq<char>) -> Seq<char> {
    "alacritty-mcp-"@ + id
}

fn build_default_spawn_title(id: &String) -> (r: String)
    requires
        id@.len() >= 8,
    ensures
        r@ == default_spawn_title(id@),
{
    let mut out = String::from_str("alacritty-mcp-");
    let pre = id.as_str().substring_char(0, 8);
    out.append(pre);
    out
}

fn build_class_tag(id: &String) -> (r: String)
    ensures
        r@ == class_tag(id@),
{
    let mut out = String::from_str("alacritty-mcp-");
    out.append(id.as_str());
    out
}

/// The text reported after a successful spawn: the fresh entry as it was
/// recorded, before any window discovery.
pub open spec fn spawn_report(m: InstanceModel) -> Seq<char> {
    "Spawned new Alacritty instance:\n"@ + render(instance_doc(m))
}

/// The text reported after keys were delivered.
pub open spec fn send_keys_report(keys: Seq<char>, iid: Seq<char>) -> Seq<char> {
    "Sent keys '"@ + keys + "' to instance "@ + iid
}

/// The text reported after a capture, for either format.
pub open spec fn capture_report(iid: Seq<char>, image: bool, content: Seq<char>) -> Seq<char> {
    if image {
        "Screenshot image from instance "@ + iid + " (base64): "@ + content
    } else {
        "Screenshot text from instance "@ + iid + ":\n"@ + content
    }
}

/// The text reported after an editor inspection.
pub open spec fn editor_report(iid: Seq<char>, content: Seq<char>) -> Seq<char> {
    "Neovim context for instance "@ + iid + ":\n"@ + content
}

/// The diagnostic for a lookup of an untracked id, the id embedded.
pub open spec fn not_found_msg(iid: Seq<char>) -> Seq<char> {
    "Instance not found: "@ + iid
}

/// One piece of gateway work handed to the caller. The caller performs it
/// and reports what happened through a [`GatewayEvent`].
pub enum Action {
    /// Read the live process table: the pids of the managed process family,
    /// and for each untracked pid among them its command-line tokens and,
    /// where discoverable, its window handle.
    QueryProcesses,
    /// Launch one terminal process with exactly these arguments.
    Launch { argv: Vec<String> },
    /// Deliver the key sequence to the instance's window, resolving the
    /// window by pid first where no handle is cached.
    SendKeys { pid: u32, window_id: Option<u32>, keys: String },
    /// Capture the instance's window, as text or as an image.
    Capture { pid: u32, window_id: Option<u32>, image: bool },
    /// Inspect the editor inside the instance.
    InspectEditor { pid: u32, include_diagnostics: bool, include_buffers: bool,
        context_lines: u32 },
}

/// Model of an [`Action`].
pub enum ActionModel {
    QueryProcesses,
    Launch { argv: Seq<Seq<char>> },
    SendKeys { pid: u32, window_id: Option<u32>, keys: Seq<char> },
    Capture { pid: u32, window_id: Option<u32>, image: bool },
    InspectEditor { pid: u32, include_diagnostics: bool, include_buffers: bool,
        context_lines: u32 },
}

impl View for Action {
    type V = ActionModel;

    open spec fn view(&self) -> ActionModel {
        match self {
            Action::QueryProcesses => ActionModel::QueryProcesses,
            Action::Launch { argv } => ActionModel::Launch { argv: strs(argv@) },
            Action::SendKeys { pid, window_id, keys } => ActionModel::SendKeys {
                pid: *pid,
                window_id: *window_id,
                keys: keys@,
            },
            Action::Capture { pid, window_id, image } => ActionModel::Capture {
                pid: *pid,
                window_id: *window_id,
                image: *image,
            },
            Action::InspectEditor { pid, include_diagnostics, include_buffers, context_lines }
                => ActionModel::InspectEditor {
                pid: *pid,
                include_diagnostics: *include_diagnostics,
                include_buffers: *include_buffers,
                context_lines: *context_lines,
            },
        }
    }
}

/// A tool call waiting for its gateway work: the caller hands it back to
/// [`McpServer::resume`] together with the work's outcome.
pub enum PendingInvoke {
    List { id: Option<JsonValue> },
    Spawn { id: Option<JsonValue>, instance_id: String, title: String, command: String },
    SendKeys { id: Option<JsonValue>, instance_id: String, keys: String },
    Screenshot { id: Option<JsonValue>, instance_id: String, image: bool },
    Editor { id: Option<JsonValue>, instance_id: String },
}

/// Model of a [`PendingInvoke`].
pub enum PendingModel {
    List { id: Option<JVal> },
    Spawn { id: Option<JVal>, instance_id: Seq<char>, title: Seq<char>, command: Seq<char> },
    SendKeys { id: Option<JVal>, instance_id: Seq<char>, keys: Seq<char> },
    Screenshot { id: Option<JVal>, instance_id: Seq<char>, image: bool },
    Editor { id: Option<JVal>, instance_id: Seq<char> },
}

impl View for PendingInvoke {
    type V = PendingModel;

    open spec fn view(&self) -> PendingModel {
        match self {
            PendingInvoke::List { id } => PendingModel::List { id: opt_doc(*id) },
            PendingInvoke::Spawn { id, instance_id, title, command } => PendingModel::Spawn {
                id: opt_doc(*id),
                instance_id: instance_id@,
                title: title@,
                command: command@,
            },
            PendingInvoke::SendKeys { id, instance_id, keys } => PendingModel::SendKeys {
                id: opt_doc(*id),
                instance_id: instance_id@,
                keys: keys@,
            },
            PendingInvoke::Screenshot { id, instance_id, image } => PendingModel::Screenshot {
                id: opt_doc(*id),
                instance_id: instance_id@,
                image: *image,
            },
            PendingInvoke::Editor { id, instance_id } => PendingModel::Editor {
                id: opt_doc(*id),
                instance_id: instance_id@,
            },
        }
    }
}

/// The request id a pending call answers to.
pub open spec fn pending_id(p: PendingModel) -> Option<JVal> {
    match p {
        PendingModel::List { id } => id,
        PendingModel::Spawn { id, .. } => id,
        PendingModel::SendKeys { id, .. } => id,
        PendingModel::Screenshot { id, .. } => id,
        PendingModel::Editor { id, .. } => id,
    }
}

/// What handling one request yields: a finished response line, or one piece
/// of gateway work together with the call that waits for it.
pub enum HandleOutcome {
    Response(String),
    Pending(PendingInvoke, Action),
}

/// Model of a [`HandleOutcome`].
pub enum OutcomeModel {
    Resp(Seq<char>),
    Pend(PendingModel, ActionModel),
}

impl View for HandleOutcome {
    type V = OutcomeModel;

    open spec fn view(&self) -> OutcomeModel {
        match self {
            HandleOutcome::Response(s) => OutcomeModel::Resp(s@),
            HandleOutcome::Pending(p, a) => OutcomeModel::Pend(p@, a@),
        }
    }
}

/// One discovered process of the managed family: its pid, its command-line
/// tokens, and its window handle where one was found.
pub struct ProcInfo {
    pub pid: u32,
    pub argv: Vec<String>,
    pub window_id: Option<u32>,
}

/// Model of a [`ProcInfo`].
pub struct ProcModel {
    pub pid: u32,
    pub argv: Seq<Seq<char>>,
    pub window_id: Option<u32>,
}

impl View for ProcInfo {
    type V = ProcModel;

    open spec fn view(&self) -> ProcModel {
        ProcModel { pid: self.pid, argv: strs(self.argv@), window_id: self.window_id }
    }
}

/// The models of a sequence of discovered processes.
pub open spec fn procs_view(s: Seq<ProcInfo>) -> Seq<ProcModel> {
    Seq::new(s.len(), |i: int| s[i]@)
}

/// What came back from one piece of gateway work.
pub enum GatewayEvent {
    /// The process table, read for a listing: the live pids, and the
    /// untracked ones among them described for adoption.
    Processes { live: Vec<u32>, procs: Vec<ProcInfo> },
    /// A launch succeeded: the new process's pid, and the current time in
    /// seconds for the entry's creation stamp.
    Launched { pid: u32, timestamp: u64 },
    /// A launch failed, with the launcher's diagnostic.
    LaunchFailed { message: String },
    /// The keys were delivered.
    Injected,
    /// A capture succeeded, as terminal text or an encoded image.
    Captured { content: String },
    /// An editor inspection succeeded, with its rendered findings.
    Inspected { content: String },
    /// Any other collaborator failure, with its diagnostic.
    Failed { message: String },
}

/// Model of a [`GatewayEvent`].
pub enum EventModel {
    Processes { live: Seq<u32>, procs: Seq<ProcModel> },
    Launched { pid: u32, timestamp: u64 },
    LaunchFailed { message: Seq<char> },
    Injected,
    Captured { content: Seq<char> },
    Inspected { content: Seq<char> },
    Failed { message: Seq<char> },
}

impl View for GatewayEvent {
    type V = EventModel;

    open spec fn view(&self) -> EventModel {
        match self {
            GatewayEvent::Processes { live, procs } => EventModel::Processes {
                live: live@,
                procs: procs_view(procs@),
            },
            GatewayEvent::Launched { pid, timestamp } => EventModel::Launched {
                pid: *pid,
                timestamp: *timestamp,
            },
            GatewayEvent::LaunchFailed { message } => EventModel::LaunchFailed {
                message: message@,
            },
            GatewayEvent::Injected => EventModel::Injected,
            GatewayEvent::Captured { content } => EventModel::Captured { content: content@ },
            GatewayEvent::Inspected { content } => EventModel::Inspected { content: content@ },
            GatewayEvent::Failed { message } => EventModel::Failed { message: message@ },
        }
    }
}

/// Model of a protocol session: its registry and its lifecycle state.
pub struct SessionModel {
    pub registry: Seq<InstanceModel>,
    pub initialized: bool,
}

/// The not-ready rejection, for any tool operation before the handshake.
pub open spec fn not_ready_out(id: Option<JVal>) -> OutcomeModel {
    OutcomeModel::Resp(render(error_doc(-32002, "Server not initialized"@, id)))
}

/// The arguments member of a call body; an empty object where none given.
pub open spec fn call_args(p: JVal) -> JVal {
    match jget(p, "arguments"@) {
        Option::Some(a) => a,
        Option::None => JVal::Obj(Seq::empty()),
    }
}

/// What dispatching the listing tool yields: the process-table query.
pub open spec fn list_out(id: Option<JVal>, out: OutcomeModel) -> bool {
    out == OutcomeModel::Pend(PendingModel::List { id }, ActionModel::QueryProcesses)
}

/// What dispatching the spawn tool yields on accepted arguments: a launch
/// under a fresh 36-character id, the title given or synthesized from the
/// id's first eight characters, and a correlation tag embedding the id.
pub open spec fn spawn_pend(sp: SpawnModel, id: Option<JVal>, out: OutcomeModel) -> bool {
    match out {
        OutcomeModel::Pend(p, a) => match (p, a) {
            (
                PendingModel::Spawn { id: rid, instance_id, title, command },
                ActionModel::Launch { argv },
            ) => {
                &&& rid == id
                &&& instance_id.len() == 36
                &&& title == match sp.title {
                    Option::Some(t) => t,
                    Option::None => default_spawn_title(instance_id),
                }
                &&& command == match sp.command {
                    Option::Some(c) => c,
                    Option::None => "shell"@,
                }
                &&& argv == launch_argv(title, sp.working_directory, sp.command, match sp.args {
                    Option::Some(a2) => a2,
                    Option::None => Seq::empty(),
                }, class_tag(instance_id))
            },
            _ => false,
        },
        _ => false,
    }
}

/// What dispatching the spawn tool yields.
pub open spec fn spawn_out(args: JVal, id: Option<JVal>, out: OutcomeModel) -> bool {
    match spawn_args(args) {
        Option::None => out == OutcomeModel::Resp(render(error_doc(
            -32602, "Invalid spawn parameters"@, id))),
        Option::Some(sp) => spawn_pend(sp, id, out),
    }
}

/// What dispatching the key-injection tool yields: schema rejection before
/// any registry lookup; an untracked id reported with the id embedded; and
/// otherwise the injection, aimed by pid and cached window handle.
pub open spec fn send_keys_out(
    reg: Seq<InstanceModel>,
    args: JVal,
    id: Option<JVal>,
    out: OutcomeModel,
) -> bool {
    match send_keys_args(args) {
        Option::None => out == OutcomeModel::Resp(render(error_doc(
            -32602, "Invalid send keys parameters"@, id))),
        Option::Some((iid, keys)) => match crate::alacritty_manager::find_id(reg, iid) {
            Option::None => out == OutcomeModel::Resp(render(error_doc(
                -32603, not_found_msg(iid), id))),
            Option::Some(inst) => out == OutcomeModel::Pend(
                PendingModel::SendKeys { id, instance_id: iid, keys },
                ActionModel::SendKeys { pid: inst.pid, window_id: inst.window_id, keys },
            ),
        },
    }
}

/// What dispatching the screen-capture tool yields; a format outside its
/// enumeration is rejected before any registry lookup.
pub open spec fn screenshot_out(
    reg: Seq<InstanceModel>,
    args: JVal,
    id: Option<JVal>,
    out: OutcomeModel,
) -> bool {
    match screenshot_args(args) {
        Option::None => out == OutcomeModel::Resp(render(error_doc(
            -32602, "Invalid screenshot parameters"@, id))),
        Option::Some((iid, fmt)) => {
            if fmt is None || fmt == Option::Some("text"@) || fmt == Option::Some("image"@) {
                let image = fmt == Option::Some("image"@);
                match crate::alacritty_manager::find_id(reg, iid) {
                    Option::None => out == OutcomeModel::Resp(render(error_doc(
                        -32603, not_found_msg(iid), id))),
                    Option::Some(inst) => out == OutcomeModel::Pend(
                        PendingModel::Screenshot { id, instance_id: iid, image },
                        ActionModel::Capture {
                            pid: inst.pid,
                            window_id: inst.window_id,
                            image,
                        },
                    ),
                }
            } else {
                out == OutcomeModel::Resp(render(error_doc(
                    -32602, "Unsupported format: "@ + fmt->0, id)))
            }
        },
    }
}

/// What dispatching the editor-context tool yields.
pub open spec fn neovim_out(
    reg: Seq<InstanceModel>,
    args: JVal,
    id: Option<JVal>,
    out: OutcomeModel,
) -> bool {
    match neovim_args(args) {
        Option::None => out == OutcomeModel::Resp(render(error_doc(
            -32602, "Invalid neovim context parameters"@, id))),
        Option::Some(p) => match crate::alacritty_manager::find_id(reg, p.instance_id) {
            Option::None => out == OutcomeModel::Resp(render(error_doc(
                -32603, not_found_msg(p.instance_id), id))),
            Option::Some(inst) => out == OutcomeModel::Pend(
                PendingModel::Editor { id, instance_id: p.instance_id },
                ActionModel::InspectEditor {
                    pid: inst.pid,
                    include_diagnostics: p.include_diagnostics,
                    include_buffers: p.include_buffers,
                    context_lines: p.context_lines,
                },
            ),
        },
    }
}

/// What dispatching a named tool yields. The dispatcher never mutates the
/// registry: schema rejection comes before any lookup, and every lookup is
/// read-only.
pub open spec fn tool_out(
    reg: Seq<InstanceModel>,
    name: Seq<char>,
    args: JVal,
    id: Option<JVal>,
    out: OutcomeModel,
) -> bool {
    if name == "list_instances"@ {
        list_out(id, out)
    } else if name == "spawn_instance"@ {
        spawn_out(args, id, out)
    } else if name == "send_keys"@ {
        send_keys_out(reg, args, id, out)
    } else if name == "screenshot_instance"@ {
        screenshot_out(reg, args, id, out)
    } else if name == "get_neovim_context"@ {
        neovim_out(reg, args, id, out)
    } else {
        out == OutcomeModel::Resp(render(error_doc(-32603, "Unknown tool: "@ + name, id)))
    }
}

/// What a call of the invocation method yields.
pub open spec fn call_out(
    reg: Seq<InstanceModel>,
    params: Option<JVal>,
    id: Option<JVal>,
    out: OutcomeModel,
) -> bool {
    match params {
        Option::None => out == OutcomeModel::Resp(render(error_doc(
            -32602, "Missing call parameters"@, id))),
        Option::Some(p) => match jget(p, "name"@) {
            Option::Some(JVal::Str(name)) => tool_out(reg, name, call_args(p), id, out),
            _ => out == OutcomeModel::Resp(render(error_doc(-32602, "Missing tool name"@, id))),
        },
    }
}

/// What one decoded request does to the session, and what it answers.
///
/// This is the session's whole step relation. In particular: the registry
/// never changes here; the handshake alone can change the lifecycle state;
/// every tool operation before the handshake is refused as not ready; and a
/// request naming an unknown method is refused with the method-not-found
/// code whatever the lifecycle state.
pub open spec fn step_post(
    pre: SessionModel,
    req: ReqModel,
    post: SessionModel,
    out: OutcomeModel,
) -> bool {
    &&& post.registry == pre.registry
    &&& if req.method == "initialize"@ {
        if valid_initialize(req.params) {
            &&& post.initialized == true
            &&& out == OutcomeModel::Resp(render(result_doc(init_result_doc(), req.id)))
        } else {
            &&& post.initialized == pre.initialized
            &&& out == OutcomeModel::Resp(render(error_doc(
                -32602, "Invalid initialize params"@, req.id)))
        }
    } else {
        &&& post.initialized == pre.initialized
        &&& if req.method == "tools/list"@ {
            if pre.initialized {
                out == OutcomeModel::Resp(render(result_doc(tools_result_doc(), req.id)))
            } else {
                out == not_ready_out(req.id)
            }
        } else if req.method == "tools/call"@ {
            if pre.initialized {
                call_out(pre.registry, req.params, req.id, out)
            } else {
                out == not_ready_out(req.id)
            }
        } else {
            out == OutcomeModel::Resp(render(error_doc(
                -32601, "Method not found: "@ + req.method, req.id)))
        }
    }
}

/// Whether `d` is a faithful batch of adoption entries for the discovered
/// processes: pids, window handles and parsed command lines carried over,
/// creation times unknown, ids fresh 36-character identifiers.
pub open spec fn discovered_ok(d: Seq<InstanceModel>, procs: Seq<ProcModel>) -> bool {
    &&& d.len() == procs.len()
    &&& forall|k: int|
        0 <= k < d.len() ==> {
            &&& (#[trigger] d[k]).pid == procs[k].pid
            &&& d[k].window_id == procs[k].window_id
            &&& d[k].created_at == 0
            &&& d[k].id.len() == 36
            &&& (d[k].title, d[k].command) == crate::alacritty_manager::parsed_cmdline(
                procs[k].argv, procs[k].pid)
        }
}

/// What resuming a pending call with its gateway outcome does to the
/// session, and the response line it settles on.
///
/// A listing reconciles the registry against the snapshot and reports it; a
/// successful launch records the new instance; every failure leaves the
/// registry as it was and reports the collaborator's diagnostic; a pending
/// call resumed with an outcome of the wrong kind is reported as a failed
/// tool execution.
pub open spec fn resume_post(
    pre: SessionModel,
    p: PendingModel,
    ev: EventModel,
    post: SessionModel,
    resp: Seq<char>,
) -> bool {
    &&& post.initialized == pre.initialized
    &&& match (p, ev) {
        (PendingModel::List { id }, EventModel::Processes { live, procs }) => exists|d:
            Seq<InstanceModel>|
            {
                &&& #[trigger] discovered_ok(d, procs)
                &&& post.registry == crate::alacritty_manager::reconciled(
                    pre.registry, live, d)
                &&& resp == render(result_doc(content_doc(list_report(post.registry)), id))
            },
        (
            PendingModel::Spawn { id, instance_id, title, command },
            EventModel::Launched { pid, timestamp },
        ) => {
            let m = InstanceModel {
                id: instance_id,
                pid,
                window_id: Option::None,
                title,
                command,
                created_at: timestamp,
            };
            &&& post.registry == crate::alacritty_manager::recorded(pre.registry, m)
            &&& resp == render(result_doc(content_doc(spawn_report(m)), id))
        },
        (PendingModel::Spawn { id, .. }, EventModel::LaunchFailed { message }) => {
            &&& post.registry == pre.registry
            &&& resp == render(error_doc(-32603, message, id))
        },
        (PendingModel::SendKeys { id, instance_id, keys }, EventModel::Injected) => {
            &&& post.registry == pre.registry
            &&& resp == render(result_doc(content_doc(send_keys_report(keys, instance_id)),
                id))
        },
        (PendingModel::SendKeys { id, .. }, EventModel::Failed { message }) => {
            &&& post.registry == pre.registry
            &&& resp == render(error_doc(-32603, message, id))
        },
        (
            PendingModel::Screenshot { id, instance_id, image },
            EventModel::Captured { content },
        ) => {
            &&& post.registry == pre.registry
            &&& resp == render(result_doc(content_doc(capture_report(
                instance_id, image, content)), id))
        },
        (PendingModel::Screenshot { id, .. }, EventModel::Failed { message }) => {
            &&& post.registry == pre.registry
            &&& resp == render(error_doc(-32603, message, id))
        },
        (PendingModel::Editor { id, instance_id }, EventModel::Inspected { content }) => {
            &&& post.registry == pre.registry
            &&& resp == render(result_doc(content_doc(editor_report(instance_id, content)),
                id))
        },
        (PendingModel::Editor { id, .. }, EventModel::Failed { message }) => {
            &&& post.registry == pre.registry
            &&& resp == render(error_doc(-32603, message, id))
        },
        _ => {
            &&& post.registry == pre.registry
            &&& resp == render(error_doc(-32603, "Tool execution failed"@, pending_id(p)))
        },
    }
}

/// The protocol session: a registry behind a handshake-gated dispatcher.
pub struct McpServer {
    manager: AlacrittyManager,
    initialized: bool,
}

impl View for McpServer {
    type V = SessionModel;

    closed spec fn view(&self) -> SessionModel {
        SessionModel { registry: self.manager@, initialized: self.initialized }
    }
}

impl McpServer {
    /// Whether the session's registry invariant holds. It holds from
    /// construction on: every operation preserves it.
    pub open spec fn wf(&self) -> bool {
        registry_wf(self@.registry)
    }

    /// A session around the given registry, not yet initialized.
    pub fn new(manager: AlacrittyManager) -> (r: Self)
        ensures
            r@.registry == manager@,
            !r@.initialized,
    {
        McpServer { manager, initialized: false }
    }

    /// The pids of a live snapshot that the registry does not track yet:
    /// the caller describes these as [`ProcInfo`] entries for a listing.
    pub fn untracked_pids(&self, live: &Vec<u32>) -> (r: Vec<u32>)
        ensures
            r@ == crate::alacritty_manager::untracked(self@.registry, live@),
    {
        self.manager.untracked_pids(live)
    }

    /// Caches a discovered window handle; never overwrites a known one.
    pub fn note_window(&mut self, id: &str, window: u32)
        ensures
            final(self)@.initialized == old(self)@.initialized,
            final(self)@.registry == crate::alacritty_manager::window_noted(
                old(self)@.registry, id@, window),
            old(self).wf() ==> final(self).wf(),
    {
        self.manager.note_window(id, window);
    }

    /// Dispatches one named tool call: validates the arguments against the
    /// tool's schema before touching the registry, resolves the instance
    /// where one is named, and hands back either a rejection or the
    /// gateway work the call needs. Read-only: no tool dispatch mutates
    /// the registry.
    fn dispatch_tool(&self, name: String, args: JsonValue, id: Option<JsonValue>) -> (r:
        HandleOutcome)
        ensures
            tool_out(self@.registry, name@, args@, opt_doc(id), r@),
    {
        let ghost idv = opt_doc(id);
        let ghost argsv = args@;
        if crate::text::str_eq(name.as_str(), "list_instances") {
            let out = HandleOutcome::Pending(PendingInvoke::List { id }, Action::QueryProcesses);
            proof {
                assert(list_out(idv, out@));
            }
            out
        } else if crate::text::str_eq(name.as_str(), "spawn_instance") {
            match parse_spawn_params(&args) {
                Option::None => HandleOutcome::Response(render_error(-32602, String::from_str(
                    "Invalid spawn parameters"), id)),
                Option::Some(sp) => {
                    let new_id = crate::alacritty_manager::fresh_instance_id();
                    let title = match &sp.title {
                        Option::Some(t) => t.clone(),
                        Option::None => build_default_spawn_title(&new_id),
                    };
                    let tag = build_class_tag(&new_id);
                    let command = match &sp.command {
                        Option::Some(c) => c.clone(),
                        Option::None => String::from_str("shell"),
                    };
                    let argv = build_launch_argv(&title, &sp.working_directory, &sp.command,
                        &sp.args, &tag);
                    let out = HandleOutcome::Pending(
                        PendingInvoke::Spawn { id, instance_id: new_id, title, command },
                        Action::Launch { argv },
                    );
                    proof {
                        assert(spawn_out(argsv, idv, out@));
                    }
                    out
                },
            }
        } else if crate::text::str_eq(name.as_str(), "send_keys") {
            match parse_send_keys_params(&args) {
                Option::None => HandleOutcome::Response(render_error(-32602, String::from_str(
                    "Invalid send keys parameters"), id)),
                Option::Some(p) => match self.manager.get(p.instance_id.as_str()) {
                    Option::None => HandleOutcome::Response(render_error(
                        -32603, not_found_text(&p.instance_id), id)),
                    Option::Some(inst) => {
                        let pid = inst.pid;
                        let window_id = inst.window_id;
                        let out = HandleOutcome::Pending(
                            PendingInvoke::SendKeys {
                                id,
                                instance_id: p.instance_id,
                                keys: p.keys.clone(),
                            },
                            Action::SendKeys { pid, window_id, keys: p.keys },
                        );
                        proof {
                            assert(send_keys_out(self@.registry, argsv, idv, out@));
                        }
                        out
                    },
                },
            }
        } else if crate::text::str_eq(name.as_str(), "screenshot_instance") {
            match parse_screenshot_params(&args) {
                Option::None => HandleOutcome::Response(render_error(-32602, String::from_str(
                    "Invalid screenshot parameters"), id)),
                Option::Some(p) => {
                    proof {
                        reveal_strlit("text");
                        reveal_strlit("image");
                    }
                    let image = match &p.format {
                        Option::None => false,
                        Option::Some(f) => {
                            if crate::text::str_eq(f.as_str(), "text") {
                                false
                            } else if crate::text::str_eq(f.as_str(), "image") {
                                true
                            } else {
                                let mut msg = String::from_str("Unsupported format: ");
                                msg.append(f.as_str());
                                return HandleOutcome::Response(render_error(-32602, msg, id));
                            }
                        },
                    };
                    match self.manager.get(p.instance_id.as_str()) {
                        Option::None => HandleOutcome::Response(render_error(
                            -32603, not_found_text(&p.instance_id), id)),
                        Option::Some(inst) => {
                            let pid = inst.pid;
                            let window_id = inst.window_id;
                            let out = HandleOutcome::Pending(
                                PendingInvoke::Screenshot {
                                    id,
                                    instance_id: p.instance_id,
                                    image,
                                },
                                Action::Capture { pid, window_id, image },
                            );
                            proof {
                                assert(screenshot_out(self@.registry, argsv, idv, out@));
                            }
                            out
                        },
                    }
                },
            }
        } else if crate::text::str_eq(name.as_str(), "get_neovim_context") {
            match parse_neovim_params(&args) {
                Option::None => HandleOutcome::Response(render_error(-32602, String::from_str(
                    "Invalid neovim context parameters"), id)),
                Option::Some(p) => match self.manager.get(p.instance_id.as_str()) {
                    Option::None => HandleOutcome::Response(render_error(
                        -32603, not_found_text(&p.instance_id), id)),
                    Option::Some(inst) => {
                        let pid = inst.pid;
                        let out = HandleOutcome::Pending(
                            PendingInvoke::Editor { id, instance_id: p.instance_id },
                            Action::InspectEditor {
                                pid,
                                include_diagnostics: p.include_diagnostics,
                                include_buffers: p.include_buffers,
                                context_lines: p.context_lines,
                            },
                        );
                        proof {
                            assert(neovim_out(self@.registry, argsv, idv, out@));
                        }
                        out
                    },
                },
            }
        } else {
            let mut msg = String::from_str("Unknown tool: ");
            msg.append(name.as_str());
            HandleOutcome::Response(render_error(-32603, msg, id))
        }
    }

    /// Handles one request line. A line that is no JSON document, or no
    /// request envelope, is answered by the parse-error response under a
    /// null id; anything else is decoded and stepped through the session as
    /// [`step_post`] states. The registry is never changed here: only
    /// [`McpServer::resume`] changes it.
    pub fn handle_request(&mut self, line: &str) -> (r: HandleOutcome)
        ensures
            final(self)@.registry == old(self)@.registry,
            old(self).wf() ==> final(self).wf(),
            match parsed_doc(line@) {
                Option::None => final(self)@ == old(self)@ && r@ == OutcomeModel::Resp(render(
                    error_doc(-32700, "Parse error"@, Option::None))),
                Option::Some(doc) => match decoded_req(doc) {
                    Option::None => final(self)@ == old(self)@ && r@ == OutcomeModel::Resp(
                        render(error_doc(-32700, "Parse error"@, Option::None))),
                    Option::Some(req) => step_post(old(self)@, req, final(self)@, r@),
                },
            },
    {
        let doc = match crate::json::parse_json(line) {
            Option::Some(d) => d,
            Option::None => {
                return HandleOutcome::Response(render_error(-32700, String::from_str(
                    "Parse error"), Option::None));
            },
        };
        let req = match decode_request(&doc) {
            Option::Some(req) => req,
            Option::None => {
                return HandleOutcome::Response(render_error(-32700, String::from_str(
                    "Parse error"), Option::None));
            },
        };
        if crate::text::str_eq(req.method.as_str(), "initialize") {
            match parse_initialize_params(&req.params) {
                Option::Some(_accepted) => {
                    self.initialized = true;
                    HandleOutcome::Response(render_result(build_init_result_doc(), req.id))
                },
                Option::None => HandleOutcome::Response(render_error(-32602, String::from_str(
                    "Invalid initialize params"), req.id)),
            }
        } else if crate::text::str_eq(req.method.as_str(), "tools/list") {
            if !self.initialized {
                HandleOutcome::Response(render_error(-32002, String::from_str(
                    "Server not initialized"), req.id))
            } else {
                HandleOutcome::Response(render_result(build_tools_result_doc(), req.id))
            }
        } else if crate::text::str_eq(req.method.as_str(), "tools/call") {
            if !self.initialized {
                return HandleOutcome::Response(render_error(-32002, String::from_str(
                    "Server not initialized"), req.id));
            }
            let params = match req.params {
                Option::Some(p) => p,
                Option::None => {
                    return HandleOutcome::Response(render_error(-32602, String::from_str(
                        "Missing call parameters"), req.id));
                },
            };
            let name = match params.obj_get("name") {
                Option::Some(v) => match v.as_text() {
                    Option::Some(s) => s.clone(),
                    Option::None => {
                        return HandleOutcome::Response(render_error(
                            -32602, String::from_str("Missing tool name"), req.id));
                    },
                },
                Option::None => {
                    return HandleOutcome::Response(render_error(-32602, String::from_str(
                        "Missing tool name"), req.id));
                },
            };
            let args = match params.obj_get("arguments") {
                Option::Some(a) => a.clone(),
                Option::None => JsonValue::Obj(Vec::new()),
            };
            proof {
                assert(jmembers(Seq::<(String, JsonValue)>::empty()) =~= Seq::<(Seq<char>,
                    JVal)>::empty());
            }
            self.dispatch_tool(name, args, req.id)
        } else {
            let mut msg = String::from_str("Method not found: ");
            msg.append(req.method.as_str());
            HandleOutcome::Response(render_error(-32601, msg, req.id))
        }
    }

    /// Resumes a pending tool call with the outcome of its gateway work and
    /// finishes its response, as [`resume_post`] states.
    pub fn resume(&mut self, pending: PendingInvoke, event: GatewayEvent) -> (r: String)
        requires
            old(self).wf(),
        ensures
            final(self).wf(),
            resume_post(old(self)@, pending@, event@, final(self)@, r@),
    {
        let ghost pv = pending@;
        let ghost ev0 = event@;
        match (pending, event) {
            (PendingInvoke::List { id }, GatewayEvent::Processes { live, procs }) => {
                let ghost pm = procs_view(procs@);
                let mut discovered: Vec<AlacrittyInstance> = Vec::new();
                let mut i: usize = 0;
                while i < procs.len()
                    invariant
                        i <= procs@.len(),
                        pm == procs_view(procs@),
                        discovered@.len() == i,
                        forall|k: int|
                            0 <= k < i ==> {
                                &&& (#[trigger] discovered@[k])@.pid == pm[k].pid
                                &&& discovered@[k]@.window_id == pm[k].window_id
                                &&& discovered@[k]@.created_at == 0
                                &&& discovered@[k]@.id.len() == 36
                                &&& (discovered@[k]@.title, discovered@[k]@.command)
                                    == crate::alacritty_manager::parsed_cmdline(
                                    pm[k].argv, pm[k].pid)
                            },
                    decreases procs@.len() - i,
                {
                    let entry = crate::alacritty_manager::build_discovered(
                        procs[i].pid, &procs[i].argv, procs[i].window_id);
                    discovered.push(entry);
                    i += 1;
                }
                self.manager.reconcile(&live, &discovered);
                let report = build_list_report(self.manager.entries());
                let resp = render_result(content_result(report), id);
                proof {
                    let d = crate::alacritty_manager::insts(discovered@);
                    assert(discovered_ok(d, pm));
                    assert(self@.registry == crate::alacritty_manager::reconciled(
                        old(self)@.registry, live@, d));
                    assert(resp@ == render(result_doc(content_doc(list_report(
                        self@.registry)), opt_doc(id))));
                    assert(ev0 == EventModel::Processes { live: live@, procs: pm });
                    assert(pv == PendingModel::List { id: opt_doc(id) });
                    let lv = ev0->Processes_live;
                    let pr = ev0->Processes_procs;
                    let idm = pv->List_id;
                    assert(lv == live@ && pr == pm && idm == opt_doc(id));
                    assert(exists|d2: Seq<InstanceModel>|
                        {
                            &&& #[trigger] discovered_ok(d2, pr)
                            &&& self@.registry == crate::alacritty_manager::reconciled(
                                old(self)@.registry, lv, d2)
                            &&& resp@ == render(result_doc(content_doc(list_report(
                                self@.registry)), idm))
                        });
                    assert(resume_post(old(self)@, pv, ev0, self@, resp@));
                }
                resp
            },
            (
                PendingInvoke::Spawn { id, instance_id, title, command },
                GatewayEvent::Launched { pid, timestamp },
            ) => {
                let inst = AlacrittyInstance {
                    id: instance_id,
                    pid,
                    window_id: Option::None,
                    title,
                    command,
                    created_at: timestamp,
                };
                let doc = build_instance_doc(&inst);
                let mut report = String::from_str("Spawned new Alacritty instance:\n");
                let body = crate::json::to_text(&doc);
                report.append(body.as_str());
                self.manager.record_spawn(inst);
                let resp = render_result(content_result(report), id);
                proof {
                    assert(resume_post(old(self)@, pv, ev0, self@, resp@));
                }
                resp
            },
            (PendingInvoke::Spawn { id, .. }, GatewayEvent::LaunchFailed { message }) => {
                let resp = render_error(-32603, message, id);
                proof {
                    assert(resume_post(old(self)@, pv, ev0, self@, resp@));
                }
                resp
            },
            (PendingInvoke::SendKeys { id, instance_id, keys }, GatewayEvent::Injected) => {
                let mut report = String::from_str("Sent keys '");
                report.append(keys.as_str());
                report.append("' to instance ");
                report.append(instance_id.as_str());
                let resp = render_result(content_result(report), id);
                proof {
                    assert(resume_post(old(self)@, pv, ev0, self@, resp@));
                }
                resp
            },
            (PendingInvoke::SendKeys { id, .. }, GatewayEvent::Failed { message }) => {
                let resp = render_error(-32603, message, id);
                proof {
                    assert(resume_post(old(self)@, pv, ev0, self@, resp@));
                }
                resp
            },
            (
                PendingInvoke::Screenshot { id, instance_id, image },
                GatewayEvent::Captured { content },
            ) => {
                let mut report: String;
                if image {
                    report = String::from_str("Screenshot image from instance ");
                    report.append(instance_id.as_str());
                    report.append(" (base64): ");
                    report.append(content.as_str());
                } else {
                    report = String::from_str("Screenshot text from instance ");
                    report.append(instance_id.as_str());
                    report.append(":\n");
                    report.append(content.as_str());
                }
                let resp = render_result(content_result(report), id);
                proof {
                    assert(resume_post(old(self)@, pv, ev0, self@, resp@));
                }
                resp
            },
            (PendingInvoke::Screenshot { id, .. }, GatewayEvent::Failed { message }) => {
                let resp = render_error(-32603, message, id);
                proof {
                    assert(resume_post(old(self)@, pv, ev0, self@, resp@));
                }
                resp
            },
            (
                PendingInvoke::Editor { id, instance_id },
                GatewayEvent::Inspected { content },
            ) => {
                let mut report = String::from_str("Neovim context for instance ");
                report.append(instance_id.as_str());
                report.append(":\n");
                report.append(content.as_str());
                let resp = render_result(content_result(report), id);
                proof {
                    assert(resume_post(old(self)@, pv, ev0, self@, resp@));
                }
                resp
            },
            (PendingInvoke::Editor { id, .. }, GatewayEvent::Failed { message }) => {
                let resp = render_error(-32603, message, id);
                proof {
                    assert(resume_post(old(self)@, pv, ev0, self@, resp@));
                }
                resp
            },
            (p, _) => {
                let id = match p {
                    PendingInvoke::List { id } => id,
                    PendingInvoke::Spawn { id, .. } => id,
                    PendingInvoke::SendKeys { id, .. } => id,
                    PendingInvoke::Screenshot { id, .. } => id,
                    PendingInvoke::Editor { id, .. } => id,
                };
                let resp = render_error(-32603, String::from_str("Tool execution failed"), id);
                proof {
                    assert(resume_post(old(self)@, pv, ev0, self@, resp@));
                }
                resp
            },
        }
    }
}

/// Model of a response envelope's error half.
pub struct ErrModel {
    pub code: i32,
    pub message: Seq<char>,
    pub data: Option<JVal>,
}

impl View for JsonRpcError {
    type V = ErrModel;

    open spec fn view(&self) -> ErrModel {
        ErrModel { code: self.code, message: self.message@, data: opt_doc(self.data) }
    }
}

/// Model of a response envelope.
pub struct RespModel {
    pub jsonrpc: Seq<char>,
    pub result: Option<JVal>,
    pub error: Option<ErrModel>,
    pub id: Option<JVal>,
}

impl View for crate::types::JsonRpcResponse {
    type V = RespModel;

    open spec fn view(&self) -> RespModel {
        RespModel {
            jsonrpc: self.jsonrpc@,
            result: opt_doc(self.result),
            error: match self.error {
                Option::Some(e) => Option::Some(e@),
                Option::None => Option::None,
            },
            id: opt_doc(self.id),
        }
    }
}

/// The error member of a rendered response.
pub open spec fn err_member_doc(e: ErrModel) -> JVal {
    JVal::Obj(
        seq![
            ("code"@, JVal::Num(dec_of_int(e.code as int))),
            ("message"@, JVal::Str(e.message)),
            ("data"@, id_doc(e.data)),
        ],
    )
}

/// The document of a whole response envelope: either half absent is null.
pub open spec fn response_doc(r: RespModel) -> JVal {
    JVal::Obj(
        seq![
            ("jsonrpc"@, JVal::Str(r.jsonrpc)),
            ("result"@, id_doc(r.result)),
            (
                "error"@,
                match r.error {
                    Option::Some(e) => err_member_doc(e),
                    Option::None => JVal::Null,
                },
            ),
            ("id"@, id_doc(r.id)),
        ],
    )
}

/// Renders a structured response envelope as its line of text.
pub fn render_response(resp: &crate::types::JsonRpcResponse) -> (r: String)
    ensures
        r@ == render(response_doc(resp@)),
{
    let result_val = match &resp.result {
        Option::Some(v) => v.clone(),
        Option::None => JsonValue::Null,
    };
    let error_val = match &resp.error {
        Option::Some(e) => {
            let mut inner: Vec<(String, JsonValue)> = Vec::new();
            inner.push((String::from_str("code"), JsonValue::Num(crate::text::i32_to_dec(
                e.code))));
            inner.push((String::from_str("message"), JsonValue::Str(e.message.clone())));
            let data_val = match &e.data {
                Option::Some(d) => d.clone(),
                Option::None => JsonValue::Null,
            };
            inner.push((String::from_str("data"), data_val));
            let built = JsonValue::Obj(inner);
            proof {
                let iv = built->Obj_0@;
                assert(jmembers(iv)[0] == (iv[0].0@, jval(iv[0].1)));
                assert(jmembers(iv)[1] == (iv[1].0@, jval(iv[1].1)));
                assert(jmembers(iv)[2] == (iv[2].0@, jval(iv[2].1)));
                assert(jmembers(iv) =~~= err_member_doc(e@)->Obj_0);
                assert(built@ == err_member_doc(e@));
            }
            built
        },
        Option::None => JsonValue::Null,
    };
    let id_val = match &resp.id {
        Option::Some(v) => v.clone(),
        Option::None => JsonValue::Null,
    };
    let mut outer: Vec<(String, JsonValue)> = Vec::new();
    outer.push((String::from_str("jsonrpc"), JsonValue::Str(resp.jsonrpc.clone())));
    outer.push((String::from_str("result"), result_val));
    outer.push((String::from_str("error"), error_val));
    outer.push((String::from_str("id"), id_val));
    let doc = JsonValue::Obj(outer);
    proof {
        let target = response_doc(resp@);
        let ov = doc->Obj_0@;
        assert(jmembers(ov)[0] == (ov[0].0@, jval(ov[0].1)));
        assert(jmembers(ov)[1] == (ov[1].0@, jval(ov[1].1)));
        assert(jmembers(ov)[2] == (ov[2].0@, jval(ov[2].1)));
        assert(jmembers(ov)[3] == (ov[3].0@, jval(ov[3].1)));
        assert(jmembers(ov) =~~= target->Obj_0);
        assert(doc@ == target);
    }
    crate::json::to_text(&doc)
}

/// Law: lifecycle gating. Before a successful handshake, the catalogue
/// listing and the tool invocation both answer the not-ready error; after
/// it, a catalogue listing always succeeds, and an invocation reaches its
/// tool's own validation.
pub proof fn lemma_lifecycle_gating(
    pre: SessionModel,
    req: ReqModel,
    post: SessionModel,
    out: OutcomeModel,
)
    requires
        step_post(pre, req, post, out),
        req.method == "tools/list"@ || req.method == "tools/call"@,
    ensures
        !pre.initialized ==> out == not_ready_out(req.id),
        pre.initialized && req.method == "tools/list"@ ==> out == OutcomeModel::Resp(render(
            result_doc(tools_result_doc(), req.id))),
        pre.initialized && req.method == "tools/call"@ ==> call_out(
            pre.registry, req.params, req.id, out),
{
    reveal_strlit("initialize");
    reveal_strlit("tools/list");
    reveal_strlit("tools/call");
    assert("initialize"@[0] == 'i' && "tools/list"@[0] == 't' && "tools/call"@[0] == 't');
    assert("tools/list"@[6] == 'l' && "tools/call"@[6] == 'c');
}

/// Law: an unknown method is refused with the method-not-found code, its
/// name echoed in the message, whatever the session's lifecycle state.
pub proof fn lemma_unknown_method(
    pre: SessionModel,
    req: ReqModel,
    post: SessionModel,
    out: OutcomeModel,
)
    requires
        step_post(pre, req, post, out),
        req.method != "initialize"@,
        req.method != "tools/list"@,
        req.method != "tools/call"@,
    ensures
        out == OutcomeModel::Resp(render(error_doc(
            -32601, "Method not found: "@ + req.method, req.id))),
        post == pre,
{
}

/// Law: schema rejection. A key-injection call with an empty argument
/// object — both required members missing — is refused as invalid before
/// any registry work; the dispatcher holds the registry read-only
/// throughout.
pub proof fn lemma_schema_rejection(
    reg: Seq<InstanceModel>,
    id: Option<JVal>,
    out: OutcomeModel,
)
    requires
        tool_out(reg, "send_keys"@, JVal::Obj(Seq::empty()), id, out),
    ensures
        out == OutcomeModel::Resp(render(error_doc(
            -32602, "Invalid send keys parameters"@, id))),
{
    reveal_strlit("send_keys");
    reveal_strlit("list_instances");
    reveal_strlit("spawn_instance");
    assert("send_keys"@.len() == 9 && "list_instances"@.len() == 14
        && "spawn_instance"@.len() == 14 && "send_keys"@[0] == 's'
        && "spawn_instance"@[0] == 's' && "send_keys"@[1] == 'e'
        && "spawn_instance"@[1] == 'p');
}

/// Law: unknown id. A well-formed key-injection call naming an id that no
/// tracked entry carries is refused with the id embedded in the message.
pub proof fn lemma_unknown_id(
    reg: Seq<InstanceModel>,
    args: JVal,
    id: Option<JVal>,
    out: OutcomeModel,
    iid: Seq<char>,
    keys: Seq<char>,
)
    requires
        tool_out(reg, "send_keys"@, args, id, out),
        send_keys_args(args) == Option::Some((iid, keys)),
        !crate::alacritty_manager::has_id(reg, iid),
    ensures
        out == OutcomeModel::Resp(render(error_doc(-32603, not_found_msg(iid), id))),
{
    reveal_strlit("send_keys");
    reveal_strlit("list_instances");
    reveal_strlit("spawn_instance");
    assert("send_keys"@.len() == 9 && "list_instances"@.len() == 14
        && "spawn_instance"@.len() == 14);
    crate::alacritty_manager::lemma_find_id_has(reg, iid);
}

fn not_found_text(iid: &String) -> (r: String)
    ensures
        r@ == not_found_msg(iid@),
{
    let mut msg = String::from_str("Instance not found: ");
    msg.append(iid.as_str());
    msg
}

} // verus!
