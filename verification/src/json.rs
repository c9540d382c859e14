//! A small JSON document model.
//!
//! The protocol exchanges one JSON document per line. Verified code works on
//! [`JsonValue`] trees; the mathematical model of a tree is [`JVal`], whose
//! strings are character sequences. Number values carry their decimal lexeme
//! as text, so no floating point arithmetic is ever performed on them.

use vstd::prelude::*;

verus! {

broadcast use vstd::std_specs::vec::group_vec_axioms, vstd::seq::group_seq_axioms;

/// Mathematical model of a JSON document.
#[verifier::ext_equal]
pub enum JVal {
    Null,
    Bool(bool),
    /// The number's lexeme, e.g. `-32601` or `2.5`.
    Num(Seq<char>),
    Str(Seq<char>),
    Arr(Seq<JVal>),
    Obj(Seq<(Seq<char>, JVal)>),
}

/// A JSON document as a value tree. Object members keep their insertion
/// order; a duplicate key is shadowed by the earliest member (lookups take
/// the first match).
#[derive(Debug)]
pub enum JsonValue {
    Null,
    Bool(bool),
    /// A number, held as its decimal lexeme.
    Num(String),
    Str(String),
    Arr(Vec<JsonValue>),
    Obj(Vec<(String, JsonValue)>),
}

/// The model of a [`JsonValue`] tree.
pub open spec fn jval(v: JsonValue) -> JVal
    decreases v,
    via jval_dec
{
    match v {
        JsonValue::Null => JVal::Null,
        JsonValue::Bool(b) => JVal::Bool(b),
        JsonValue::Num(s) => JVal::Num(s@),
        JsonValue::Str(s) => JVal::Str(s@),
        JsonValue::Arr(a) => JVal::Arr(jvals(a@)),
        JsonValue::Obj(o) => JVal::Obj(jmembers(o@)),
    }
}

/// Element-wise model of a sequence of documents.
pub open spec fn jvals(a: Seq<JsonValue>) -> Seq<JVal>
    decreases a,
    via jvals_dec
{
    if a.len() == 0 {
        Seq::empty()
    } else {
        seq![jval(a[0])] + jvals(a.drop_first())
    }
}

/// Element-wise model of a sequence of object members.
pub open spec fn jmembers(o: Seq<(String, JsonValue)>) -> Seq<(Seq<char>, JVal)>
    decreases o,
    via jmembers_dec
{
    if o.len() == 0 {
        Seq::empty()
    } else {
        seq![(o[0].0@, jval(o[0].1))] + jmembers(o.drop_first())
    }
}

#[via_fn]
proof fn jval_dec(v: JsonValue) {
    match v {
        JsonValue::Arr(a) => {
            assert(decreases_to!(v => a));
            assert(decreases_to!(a => a@));
        },
        JsonValue::Obj(o) => {
            assert(decreases_to!(v => o));
            assert(decreases_to!(o => o@));
        },
        _ => {},
    }
}

#[via_fn]
proof fn jvals_dec(a: Seq<JsonValue>) {
    if a.len() > 0 {
        assert(decreases_to!(a => a[0]));
        vstd::seq::axiom_seq_subrange_decreases(a, 1, a.len() as int);
    }
}

#[via_fn]
proof fn jmembers_dec(o: Seq<(String, JsonValue)>) {
    if o.len() > 0 {
        assert(decreases_to!(o => o[0]));
        assert(decreases_to!(o[0] => o[0].1));
        vstd::seq::axiom_seq_subrange_decreases(o, 1, o.len() as int);
    }
}

impl View for JsonValue {
    type V = JVal;

    open spec fn view(&self) -> JVal {
        jval(*self)
    }
}

/// First value bound to `key` among `fields`, if any.
pub open spec fn lookup(fields: Seq<(Seq<char>, JVal)>, key: Seq<char>) -> Option<JVal>
    decreases fields.len(),
{
    if fields.len() == 0 {
        Option::None
    } else if fields[0].0 == key {
        Option::Some(fields[0].1)
    } else {
        lookup(fields.drop_first(), key)
    }
}

/// Value of `key` in an object document; `None` for an absent key or a
/// document that is no object.
pub open spec fn jget(v: JVal, key: Seq<char>) -> Option<JVal> {
    match v {
        JVal::Obj(fields) => lookup(fields, key),
        _ => Option::None,
    }
}

pub broadcast proof fn lemma_jvals_index(a: Seq<JsonValue>)
    ensures
        (#[trigger] jvals(a)).len() == a.len(),
        forall|i: int| 0 <= i < a.len() ==> jvals(a)[i] == jval(a[i]),
    decreases a.len(),
{
    if a.len() > 0 {
        lemma_jvals_index(a.drop_first());
    }
}

pub broadcast proof fn lemma_jmembers_index(o: Seq<(String, JsonValue)>)
    ensures
        (#[trigger] jmembers(o)).len() == o.len(),
        forall|i: int| 0 <= i < o.len() ==> jmembers(o)[i] == (o[i].0@, jval(o[i].1)),
    decreases o.len(),
{
    if o.len() > 0 {
        lemma_jmembers_index(o.drop_first());
    }
}

/// How one character appears inside a rendered JSON string literal.
pub open spec fn esc_char(c: char) -> Seq<char> {
    if c == '"' {
        seq!['\\', '"']
    } else if c == '\\' {
        seq!['\\', '\\']
    } else if c == '\n' {
        seq!['\\', 'n']
    } else if c == '\r' {
        seq!['\\', 'r']
    } else if c == '\t' {
        seq!['\\', 't']
    } else if (c as u32) < 32 {
        seq!['\\', 'u', '0', '0', crate::text::dec_digit((c as u32) as int / 16),
            hex_digit((c as u32) as int % 16)]
    } else {
        seq![c]
    }
}

/// The character for a hexadecimal digit.
pub open spec fn hex_digit(d: int) -> char {
    if d < 10 { crate::text::dec_digit(d) }
    else if d == 10 { 'a' }
    else if d == 11 { 'b' }
    else if d == 12 { 'c' }
    else if d == 13 { 'd' }
    else if d == 14 { 'e' }
    else { 'f' }
}

/// The body of a rendered JSON string literal.
pub open spec fn esc(s: Seq<char>) -> Seq<char>
    decreases s.len(),
{
    if s.len() == 0 {
        Seq::empty()
    } else {
        esc(s.drop_last()) + esc_char(s.last())
    }
}

/// A rendered JSON string literal, quotes included.
pub open spec fn quoted(s: Seq<char>) -> Seq<char> {
    seq!['"'] + esc(s) + seq!['"']
}

/// The text of a JSON document: compact, no added whitespace, members in
/// order.
pub open spec fn render(v: JVal) -> Seq<char>
    decreases v,
{
    match v {
        JVal::Null => "null"@,
        JVal::Bool(b) => if b { "true"@ } else { "false"@ },
        JVal::Num(lex) => lex,
        JVal::Str(s) => quoted(s),
        JVal::Arr(elems) => seq!['['] + render_elems(elems) + seq![']'],
        JVal::Obj(ms) => seq!['{'] + render_members(ms) + seq!['}'],
    }
}

/// The comma-separated rendering of array elements.
pub open spec fn render_elems(elems: Seq<JVal>) -> Seq<char>
    decreases elems,
    via render_elems_dec
{
    if elems.len() == 0 {
        Seq::empty()
    } else if elems.len() == 1 {
        render(elems[0])
    } else {
        render(elems[0]) + seq![','] + render_elems(elems.drop_first())
    }
}

/// The comma-separated rendering of object members.
pub open spec fn render_members(ms: Seq<(Seq<char>, JVal)>) -> Seq<char>
    decreases ms,
    via render_members_dec
{
    if ms.len() == 0 {
        Seq::empty()
    } else if ms.len() == 1 {
        quoted(ms[0].0) + seq![':'] + render(ms[0].1)
    } else {
        quoted(ms[0].0) + seq![':'] + render(ms[0].1) + seq![','] + render_members(
            ms.drop_first())
    }
}

#[via_fn]
proof fn render_elems_dec(elems: Seq<JVal>) {
    if elems.len() > 0 {
        assert(decreases_to!(elems => elems[0]));
        vstd::seq::axiom_seq_subrange_decreases(elems, 1, elems.len() as int);
    }
}

#[via_fn]
proof fn render_members_dec(ms: Seq<(Seq<char>, JVal)>) {
    if ms.len() > 0 {
        assert(decreases_to!(ms => ms[0]));
        assert(decreases_to!(ms[0] => ms[0].1));
        vstd::seq::axiom_seq_subrange_decreases(ms, 1, ms.len() as int);
    }
}

proof fn lemma_jvals_snoc(s: Seq<JsonValue>, x: JsonValue)
    ensures
        jvals(s.push(x)) == jvals(s).push(jval(x)),
    decreases s.len(),
{
    if s.len() == 0 {
        assert(s.push(x)[0] == x);
        assert(s.push(x).drop_first() =~= s);
        assert(jvals(s.push(x)) =~= jvals(s).push(jval(x)));
    } else {
        assert(s.push(x)[0] == s[0]);
        assert(s.push(x).drop_first() =~= s.drop_first().push(x));
        lemma_jvals_snoc(s.drop_first(), x);
        assert(jvals(s.push(x)) =~= jvals(s).push(jval(x)));
    }
}

proof fn lemma_jmembers_snoc(s: Seq<(String, JsonValue)>, m: (String, JsonValue))
    ensures
        jmembers(s.push(m)) == jmembers(s).push((m.0@, jval(m.1))),
    decreases s.len(),
{
    if s.len() == 0 {
        assert(s.push(m)[0] == m);
        assert(s.push(m).drop_first() =~= s);
        assert(jmembers(s.push(m)) =~= jmembers(s).push((m.0@, jval(m.1))));
    } else {
        assert(s.push(m)[0] == s[0]);
        assert(s.push(m).drop_first() =~= s.drop_first().push(m));
        lemma_jmembers_snoc(s.drop_first(), m);
        assert(jmembers(s.push(m)) =~= jmembers(s).push((m.0@, jval(m.1))));
    }
}

proof fn lemma_render_elems_snoc(s: Seq<JVal>, x: JVal)
    ensures
        render_elems(s.push(x)) == if s.len() == 0 {
            render(x)
        } else {
            render_elems(s) + seq![','] + render(x)
        },
    decreases s.len(),
{
    let t = s.push(x);
    if s.len() == 0 {
        assert(t.len() == 1 && t[0] == x);
    } else {
        assert(t[0] == s[0]);
        assert(t.drop_first() =~= s.drop_first().push(x));
        lemma_render_elems_snoc(s.drop_first(), x);
        if s.len() == 1 {
            assert(render_elems(s) == render(s[0]));
        }
    }
}

proof fn lemma_render_members_snoc(s: Seq<(Seq<char>, JVal)>, k: Seq<char>, x: JVal)
    ensures
        render_members(s.push((k, x))) == if s.len() == 0 {
            quoted(k) + seq![':'] + render(x)
        } else {
            render_members(s) + seq![','] + quoted(k) + seq![':'] + render(x)
        },
    decreases s.len(),
{
    let t = s.push((k, x));
    if s.len() == 0 {
        assert(t.len() == 1 && t[0] == (k, x));
    } else {
        assert(t[0] == s[0]);
        assert(t.drop_first() =~= s.drop_first().push((k, x)));
        lemma_render_members_snoc(s.drop_first(), k, x);
        if s.len() == 1 {
            assert(render_members(s) == quoted(s[0].0) + seq![':'] + render(s[0].1));
        }
    }
}

fn hex_digit_char(d: u32) -> (c: char)
    requires
        d < 16,
    ensures
        c == hex_digit(d as int),
{
    if d == 0 { '0' }
    else if d == 1 { '1' }
    else if d == 2 { '2' }
    else if d == 3 { '3' }
    else if d == 4 { '4' }
    else if d == 5 { '5' }
    else if d == 6 { '6' }
    else if d == 7 { '7' }
    else if d == 8 { '8' }
    else if d == 9 { '9' }
    else if d == 10 { 'a' }
    else if d == 11 { 'b' }
    else if d == 12 { 'c' }
    else if d == 13 { 'd' }
    else if d == 14 { 'e' }
    else { 'f' }
}

/// Appends the escaped body of a JSON string literal for `s`.
pub fn write_escaped(s: &str, out: &mut String)
    ensures
        final(out)@ == old(out)@ + esc(s@),
{
    let n = s.unicode_len();
    let mut i: usize = 0;
    while i < n
        invariant
            n == s@.len(),
            i <= n,
            out@ == old(out)@ + esc(s@.subrange(0, i as int)),
        decreases n - i,
    {
        let c = s.get_char(i);
        proof {
            assert(s@.subrange(0, i + 1).drop_last() =~= s@.subrange(0, i as int));
            assert(s@.subrange(0, i + 1).last() == c);
        }
        if c == '"' {
            crate::text::push_char(out, '\\');
            crate::text::push_char(out, '"');
        } else if c == '\\' {
            crate::text::push_char(out, '\\');
            crate::text::push_char(out, '\\');
        } else if c == '\n' {
            crate::text::push_char(out, '\\');
            crate::text::push_char(out, 'n');
        } else if c == '\r' {
            crate::text::push_char(out, '\\');
            crate::text::push_char(out, 'r');
        } else if c == '\t' {
            crate::text::push_char(out, '\\');
            crate::text::push_char(out, 't');
        } else if (c as u32) < 32 {
            crate::text::push_char(out, '\\');
            crate::text::push_char(out, 'u');
            crate::text::push_char(out, '0');
            crate::text::push_char(out, '0');
            let d: u32 = c as u32;
            crate::text::push_char(out, hex_digit_char(d / 16));
            crate::text::push_char(out, hex_digit_char(d % 16));
        } else {
            crate::text::push_char(out, c);
        }
        i += 1;
    }
    proof {
        assert(s@.subrange(0, n as int) =~= s@);
    }
}

/// Appends the rendered text of `v`.
#[verifier::loop_isolation(false)]
#[verifier::rlimit(60)]
pub fn write_jval(v: &JsonValue, out: &mut String)
    ensures
        final(out)@ == old(out)@ + render(v@),
    decreases v,
{
    broadcast use lemma_jvals_index, lemma_jmembers_index;

    match v {
        JsonValue::Null => {
            out.append("null");
        },
        JsonValue::Bool(b) => {
            if *b {
                out.append("true");
            } else {
                out.append("false");
            }
        },
        JsonValue::Num(s) => {
            out.append(s.as_str());
        },
        JsonValue::Str(s) => {
            crate::text::push_char(out, '"');
            write_escaped(s.as_str(), out);
            crate::text::push_char(out, '"');
            proof {
                assert(old(out)@ + quoted(s@) =~= old(out)@.push('"') + esc(s@) + seq!['"']);
            }
        },
        JsonValue::Arr(a) => {
            crate::text::push_char(out, '[');
            let ghost base = old(out)@.push('[');
            let n = a.len();
            let mut i: usize = 0;
            while i < n
                invariant
                    n == a.len(),
                    i <= n,
                    out@ == base + render_elems(jvals(a@.subrange(0, i as int))),
                decreases n - i,
            {
                proof {
                    assert(decreases_to!(*v => *a));
                    assert(decreases_to!(*a => a@));
                    assert(decreases_to!(a@ => a@[i as int]));
                }
                if i > 0 {
                    crate::text::push_char(out, ',');
                }
                write_jval(&a[i], out);
                proof {
                    let pre = a@.subrange(0, i as int);
                    assert(a@.subrange(0, i + 1) =~= pre.push(a@[i as int]));
                    lemma_jvals_snoc(pre, a@[i as int]);
                    lemma_render_elems_snoc(jvals(pre), jval(a@[i as int]));
                    assert(out@ == base + render_elems(jvals(a@.subrange(0, i + 1))));
                }
                i += 1;
            }
            crate::text::push_char(out, ']');
            proof {
                assert(a@.subrange(0, n as int) =~= a@);
                assert(old(out)@ + render(v@) =~= base + render_elems(jvals(a@)) + seq![']']);
            }
        },
        JsonValue::Obj(o) => {
            crate::text::push_char(out, '{');
            let ghost base = old(out)@.push('{');
            let n = o.len();
            let mut i: usize = 0;
            while i < n
                invariant
                    n == o.len(),
                    i <= n,
                    out@ == base + render_members(jmembers(o@.subrange(0, i as int))),
                decreases n - i,
            {
                proof {
                    assert(decreases_to!(*v => *o));
                    assert(decreases_to!(*o => o@));
                    assert(decreases_to!(o@ => o@[i as int]));
                    assert(decreases_to!(o@[i as int] => o@[i as int].1));
                }
                if i > 0 {
                    crate::text::push_char(out, ',');
                }
                let ghost mid = out@;
                crate::text::push_char(out, '"');
                write_escaped(o[i].0.as_str(), out);
                crate::text::push_char(out, '"');
                crate::text::push_char(out, ':');
                write_jval(&o[i].1, out);
                proof {
                    let ki = o@[i as int].0@;
                    let xi = jval(o@[i as int].1);
                    assert(out@ =~= mid + quoted(ki) + seq![':'] + render(xi));
                    let pre = o@.subrange(0, i as int);
                    assert(o@.subrange(0, i + 1) =~= pre.push(o@[i as int]));
                    lemma_jmembers_snoc(pre, o@[i as int]);
                    lemma_render_members_snoc(jmembers(pre), ki, xi);
                    assert(out@ =~= base + render_members(jmembers(o@.subrange(0, i + 1))));
                }
                i += 1;
            }
            crate::text::push_char(out, '}');
            proof {
                assert(o@.subrange(0, n as int) =~= o@);
                assert(old(out)@ + render(v@) =~= base + render_members(jmembers(o@)) + seq!['}']);
            }
        },
    }
}

/// The rendered text of `v` as a fresh string.
pub fn to_text(v: &JsonValue) -> (r: String)
    ensures
        r@ == render(v@),
{
    let mut out = String::new();
    write_jval(v, &mut out);
    out
}

impl JsonValue {
    /// First value bound to `key`, when this document is an object holding
    /// the key; `None` otherwise.
    #[verifier::loop_isolation(false)]
    pub fn obj_get<'a>(&'a self, key: &str) -> (r: Option<&'a JsonValue>)
        ensures
            match r {
                Option::Some(x) => jget(self@, key@) == Option::Some(x@),
                Option::None => jget(self@, key@) is None,
            },
    {
        broadcast use lemma_jmembers_index;

        match self {
            JsonValue::Obj(o) => {
                let ghost ms = jmembers(o@);
                let n = o.len();
                proof {
                    assert(ms.subrange(0, n as int) =~= ms);
                }
                let mut i: usize = 0;
                while i < n
                    invariant
                        i <= n,
                        lookup(ms, key@) == lookup(ms.subrange(i as int, n as int), key@),
                    decreases n - i,
                {
                    let ghost rest = ms.subrange(i as int, n as int);
                    proof {
                        assert(rest[0] == ms[i as int]);
                        assert(rest.drop_first() =~= ms.subrange(i + 1, n as int));
                    }
                    if crate::text::str_eq(o[i].0.as_str(), key) {
                        return Option::Some(&o[i].1);
                    }
                    i += 1;
                }
                proof {
                    assert(ms.subrange(n as int, n as int) =~= Seq::empty());
                }
                Option::None
            },
            _ => Option::None,
        }
    }

    /// The borrowed text of a string document, `None` for any other kind.
    pub fn as_text<'a>(&'a self) -> (r: Option<&'a String>)
        ensures
            match r {
                Option::Some(s) => self@ == JVal::Str(s@),
                Option::None => !(self@ is Str),
            },
    {
        match self {
            JsonValue::Str(s) => Option::Some(s),
            _ => Option::None,
        }
    }

    /// The value of a boolean document, `None` for any other kind.
    pub fn as_flag(&self) -> (r: Option<bool>)
        ensures
            match r {
                Option::Some(b) => self@ == JVal::Bool(b),
                Option::None => !(self@ is Bool),
            },
    {
        match self {
            JsonValue::Bool(b) => Option::Some(*b),
            _ => Option::None,
        }
    }
}

impl Clone for JsonValue {
    /// A clone carries the same model.
    #[verifier::loop_isolation(false)]
    fn clone(&self) -> (r: Self)
        ensures
            r@ == self@,
        decreases self,
    {
        broadcast use lemma_jvals_index, lemma_jmembers_index;

        match self {
            JsonValue::Null => JsonValue::Null,
            JsonValue::Bool(b) => JsonValue::Bool(*b),
            JsonValue::Num(s) => JsonValue::Num(s.clone()),
            JsonValue::Str(s) => JsonValue::Str(s.clone()),
            JsonValue::Arr(a) => {
                let mut out: Vec<JsonValue> = Vec::new();
                let mut i: usize = 0;
                while i < a.len()
                    invariant
                        i <= a@.len(),
                        out@.len() == i,
                        forall|j: int| 0 <= j < i ==> jval(#[trigger] out@[j]) == jval(a@[j]),
                    decreases a@.len() - i,
                {
                    proof {
                        assert(decreases_to!(*self => *a));
                        assert(decreases_to!(*a => a@));
                        assert(decreases_to!(a@ => a@[i as int]));
                    }
                    let c = a[i].clone();
                    out.push(c);
                    i += 1;
                }
                proof {
                    assert(jvals(out@) =~= jvals(a@));
                }
                JsonValue::Arr(out)
            },
            JsonValue::Obj(o) => {
                let mut out: Vec<(String, JsonValue)> = Vec::new();
                let mut i: usize = 0;
                while i < o.len()
                    invariant
                        i <= o@.len(),
                        out@.len() == i,
                        forall|j: int|
                            0 <= j < i ==> (#[trigger] out@[j]).0@ == o@[j].0@ && jval(
                                out@[j].1) == jval(o@[j].1),
                    decreases o@.len() - i,
                {
                    proof {
                        assert(decreases_to!(*self => *o));
                        assert(decreases_to!(*o => o@));
                        assert(decreases_to!(o@ => o@[i as int]));
                        assert(decreases_to!(o@[i as int] => o@[i as int].1));
                    }
                    let k = o[i].0.clone();
                    let v = o[i].1.clone();
                    out.push((k, v));
                    i += 1;
                }
                proof {
                    assert(jmembers(out@) =~= jmembers(o@));
                }
                JsonValue::Obj(out)
            },
        }
    }
}

/// Declares serde_json's document type, so that [`from_serde`] can take it.
/// Nothing is assumed of the type itself.
#[verifier::external_type_specification]
#[verifier::external_body]
pub struct ExSerdeValue(serde_json::Value);

/// What [`parse_json`] decodes from the given text: `None` where the text is
/// no well-formed JSON document.
pub uninterp spec fn parsed_doc(s: Seq<char>) -> Option<JVal>;

/// Relies on serde_json::from_str: decodes one JSON document from a string,
/// or fails. The outcome depends on the text alone, so it is named by
/// [`parsed_doc`].
#[verifier::external_body]
pub fn parse_json(s: &str) -> (r: Option<JsonValue>)
    ensures
        match r {
            Option::Some(v) => parsed_doc(s@) == Option::Some(v@),
            Option::None => parsed_doc(s@) is None,
        },
{
    match serde_json::from_str::<serde_json::Value>(s) {
        Ok(v) => Some(from_serde(&v)),
        Err(_) => None,
    }
}

/// Carries a decoded document from serde_json into [`parse_json`]'s result,
/// one variant arm each; numbers keep their lexeme as text. No contract of
/// its own is assumed: [`parse_json`] states the whole decoding's contract.
#[verifier::external_body]
fn from_serde(v: &serde_json::Value) -> JsonValue {
    match v {
        serde_json::Value::Null => JsonValue::Null,
        serde_json::Value::Bool(b) => JsonValue::Bool(*b),
        serde_json::Value::Number(n) => JsonValue::Num(n.to_string()),
        serde_json::Value::String(s) => JsonValue::Str(s.clone()),
        serde_json::Value::Array(a) => JsonValue::Arr(a.iter().map(from_serde).collect()),
        serde_json::Value::Object(o) => JsonValue::Obj(
            o.iter().map(|(k, x)| (k.clone(), from_serde(x))).collect(),
        ),
    }
}

} // verus!
