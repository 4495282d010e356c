//! The JSON wire format.
//!
//! A [`JsonNode`] describes one JSON document one level deep: scalars are
//! held directly, while the elements of an array and the member values of
//! an object are held as their own JSON text, to be parsed further only
//! if a caller needs to look inside them. This keeps arbitrarily shaped
//! service data opaque while letting the parts the client reads be checked
//! precisely.
//!
//! Serialization is implemented and verified here; parsing is done by
//! `serde_json` behind [`parse_json`], whose result is named by
//! [`spec_parse_json`].

use serde_json::Value;
use vstd::prelude::*;

use crate::text::{hex_digit, push_char, spec_hex_digit};

verus! {

/// A JSON document, one level deep. Array elements and object member
/// values are kept as raw JSON text.
pub enum JsonNode {
    Null,
    Bool(bool),
    /// The number's own text, e.g. `-12.5e3`.
    Num(String),
    /// A string value, unescaped.
    Str(String),
    /// An array: the JSON text of each element, in order.
    Arr(Vec<String>),
    /// An object: each member's name (unescaped) and the JSON text of its
    /// value, in order.
    Obj(Vec<(String, String)>),
}

/// Mathematical model of a [`JsonNode`].
pub enum JsonNodeV {
    Null,
    Bool(bool),
    Num(Seq<char>),
    Str(Seq<char>),
    Arr(Seq<Seq<char>>),
    Obj(Seq<(Seq<char>, Seq<char>)>),
}

impl View for JsonNode {
    type V = JsonNodeV;

    open spec fn view(&self) -> JsonNodeV {
        match self {
            JsonNode::Null => JsonNodeV::Null,
            JsonNode::Bool(b) => JsonNodeV::Bool(*b),
            JsonNode::Num(t) => JsonNodeV::Num(t@),
            JsonNode::Str(t) => JsonNodeV::Str(t@),
            JsonNode::Arr(elems) => JsonNodeV::Arr(elems.deep_view()),
            JsonNode::Obj(fields) => JsonNodeV::Obj(fields.deep_view()),
        }
    }
}

impl DeepView for JsonNode {
    type V = JsonNodeV;

    open spec fn deep_view(&self) -> JsonNodeV {
        self.view()
    }
}

/// What `serde_json` parses the text `s` into, described as a
/// [`JsonNodeV`]: `None` when `s` is not a valid JSON document, otherwise
/// the document one level deep, nested values rendered back to their own
/// JSON text. A function of the text alone.
pub uninterp spec fn spec_parse_json(s: Seq<char>) -> Option<JsonNodeV>;

/// Relies on `serde_json::from_str::<Value>` to parse one JSON document
/// (deterministic in the input text) and on `serde_json::Value`'s
/// `Display` to render each nested value back to its own JSON text
/// (deterministic in the value). Together they give exactly the document
/// named by [`spec_parse_json`].
#[verifier::external_body]
pub(crate) fn parse_json(s: &str) -> (r: Result<JsonNode, String>)
    ensures
        r is Ok <==> spec_parse_json(s@) is Some,
        r matches Ok(node) ==> spec_parse_json(s@) == Some(node@),
{
    match serde_json::from_str::<Value>(s) {
        Err(e) => Err(e.to_string()),
        Ok(Value::Null) => Ok(JsonNode::Null),
        Ok(Value::Bool(b)) => Ok(JsonNode::Bool(b)),
        Ok(Value::Number(n)) => Ok(JsonNode::Num(n.to_string())),
        Ok(Value::String(t)) => Ok(JsonNode::Str(t)),
        Ok(Value::Array(a)) => Ok(JsonNode::Arr(a.iter().map(|v| v.to_string()).collect())),
        Ok(Value::Object(m)) => Ok(JsonNode::Obj(
            m.into_iter().map(|(k, v)| (k, v.to_string())).collect(),
        )),
    }
}

/// How one character is written inside a JSON string literal.
pub open spec fn spec_escape_char(c: char) -> Seq<char> {
    if c == '"' {
        seq!['\\', '"']
    } else if c == '\\' {
        seq!['\\', '\\']
    } else if c == '\n' {
        seq!['\\', 'n']
    } else if c == '\r' {
        seq!['\\', 'r']
    } else if c == '\t' {
        seq!['\\', 't']
    } else if (c as u32) < 32 {
        seq![
            '\\',
            'u',
            '0',
            '0',
            spec_hex_digit((c as u32 / 16) as nat),
            spec_hex_digit((c as u32 % 16) as nat),
        ]
    } else {
        seq![c]
    }
}

/// The body of a JSON string literal holding the text `s`.
pub open spec fn spec_escape(s: Seq<char>) -> Seq<char>
    decreases s.len(),
{
    if s.len() == 0 {
        Seq::empty()
    } else {
        spec_escape_char(s.first()) + spec_escape(s.drop_first())
    }
}

/// Escaping one character at a time from the left is the same as escaping
/// the whole text.
pub proof fn lemma_escape_push(s: Seq<char>, c: char)
    ensures
        spec_escape(s.push(c)) == spec_escape(s) + spec_escape_char(c),
    decreases s.len(),
{
    if s.len() == 0 {
        assert(s.push(c).first() == c);
        assert(s.push(c).drop_first() =~= Seq::<char>::empty());
        assert(spec_escape(s.push(c)) == spec_escape_char(c) + spec_escape(Seq::<char>::empty()));
        assert(spec_escape_char(c) + Seq::<char>::empty() =~= spec_escape_char(c));
        assert(spec_escape(s) + spec_escape_char(c) =~= spec_escape_char(c));
    } else {
        assert(s.push(c).first() == s.first());
        assert(s.push(c).drop_first() =~= s.drop_first().push(c));
        lemma_escape_push(s.drop_first(), c);
        assert(spec_escape_char(s.first()) + (spec_escape(s.drop_first()) + spec_escape_char(c))
            =~= (spec_escape_char(s.first()) + spec_escape(s.drop_first())) + spec_escape_char(
            c,
        ));
    }
}

/// The JSON string literal holding the text `s`, quotes included.
pub open spec fn spec_json_string(s: Seq<char>) -> Seq<char> {
    seq!['"'] + spec_escape(s) + seq!['"']
}

/// Appends the escaped form of the one character `c` to `out`.
fn append_escaped_char(out: &mut String, c: char)
    ensures
        final(out)@ == old(out)@ + spec_escape_char(c),
{
    if c == '"' {
        push_char(out, '\\');
        push_char(out, '"');
        proof {
            assert(out@ =~= old(out)@ + spec_escape_char(c));
        }
    } else if c == '\\' {
        push_char(out, '\\');
        push_char(out, '\\');
        proof {
            assert(out@ =~= old(out)@ + spec_escape_char(c));
        }
    } else if c == '\n' {
        push_char(out, '\\');
        push_char(out, 'n');
        proof {
            assert(out@ =~= old(out)@ + spec_escape_char(c));
        }
    } else if c == '\r' {
        push_char(out, '\\');
        push_char(out, 'r');
        proof {
            assert(out@ =~= old(out)@ + spec_escape_char(c));
        }
    } else if c == '\t' {
        push_char(out, '\\');
        push_char(out, 't');
        proof {
            assert(out@ =~= old(out)@ + spec_escape_char(c));
        }
    } else {
        let u = c as u32;
        if u < 32 {
            push_char(out, '\\');
            push_char(out, 'u');
            push_char(out, '0');
            push_char(out, '0');
            push_char(out, hex_digit((u / 16) as u8));
            push_char(out, hex_digit((u % 16) as u8));
            proof {
                assert(out@ =~= old(out)@ + spec_escape_char(c));
            }
        } else {
            push_char(out, c);
            proof {
                assert(out@ =~= old(out)@ + spec_escape_char(c));
            }
        }
    }
}

/// Appends the body of a JSON string literal holding `s` to `out`.
fn append_escaped(out: &mut String, s: &str)
    ensures
        final(out)@ == old(out)@ + spec_escape(s@),
{
    let n = s.unicode_len();
    let mut i: usize = 0;
    proof {
        assert(s@.take(0) =~= Seq::<char>::empty());
    }
    while i < n
        invariant
            i <= n,
            n == s@.len(),
            out@ == old(out)@ + spec_escape(s@.take(i as int)),
        decreases n - i,
    {
        let c = s.get_char(i);
        proof {
            assert(s@.take(i as int + 1) =~= s@.take(i as int).push(s@[i as int]));
            lemma_escape_push(s@.take(i as int), s@[i as int]);
        }
        append_escaped_char(out, c);
        proof {
            assert(out@ =~= old(out)@ + spec_escape(s@.take(i as int + 1)));
        }
        i = i + 1;
    }
    proof {
        assert(s@.take(n as int) =~= s@);
    }
}

/// Appends the JSON string literal holding `s`, quotes included, to `out`.
pub(crate) fn append_json_string(out: &mut String, s: &str)
    ensures
        final(out)@ == old(out)@ + spec_json_string(s@),
{
    push_char(out, '"');
    append_escaped(out, s);
    push_char(out, '"');
    proof {
        assert(out@ =~= old(out)@ + spec_json_string(s@));
    }
}

/// The pieces `elems` joined by the separator `sep`.
pub open spec fn spec_join_sep(elems: Seq<Seq<char>>, sep: char) -> Seq<char>
    decreases elems.len(),
{
    if elems.len() == 0 {
        Seq::empty()
    } else if elems.len() == 1 {
        elems.first()
    } else {
        elems.first() + seq![sep] + spec_join_sep(elems.drop_first(), sep)
    }
}

/// Joining one more piece on the right adds one separator and the piece.
pub proof fn lemma_join_sep_push(elems: Seq<Seq<char>>, e: Seq<char>, sep: char)
    ensures
        spec_join_sep(elems.push(e), sep) == if elems.len() == 0 {
            e
        } else {
            spec_join_sep(elems, sep) + seq![sep] + e
        },
    decreases elems.len(),
{
    if elems.len() == 0 {
        assert(elems.push(e).first() == e);
    } else if elems.len() == 1 {
        assert(elems.push(e).first() == elems.first());
        assert(elems.push(e).drop_first() =~= seq![e]);
        assert(seq![e].first() == e);
        assert(spec_join_sep(seq![e], sep) == e);
    } else {
        assert(elems.push(e).first() == elems.first());
        assert(elems.push(e).drop_first() =~= elems.drop_first().push(e));
        lemma_join_sep_push(elems.drop_first(), e, sep);
        assert(elems.first() + seq![sep] + (spec_join_sep(elems.drop_first(), sep) + seq![sep] + e)
            =~= (elems.first() + seq![sep] + spec_join_sep(elems.drop_first(), sep)) + seq![sep]
            + e);
    }
}

/// One object member as written on the wire: quoted name, `:`, value text.
pub open spec fn spec_field_text(f: (Seq<char>, Seq<char>)) -> Seq<char> {
    spec_json_string(f.0) + seq![':'] + f.1
}

/// The body of a JSON object (without the braces) over the given members.
pub open spec fn spec_fields_text(fields: Seq<(Seq<char>, Seq<char>)>) -> Seq<char> {
    spec_join_sep(fields.map_values(|f: (Seq<char>, Seq<char>)| spec_field_text(f)), ',')
}

/// The body of a one-member object, written out.
pub(crate) proof fn lemma_one_field(f0: (Seq<char>, Seq<char>))
    ensures
        spec_fields_text(seq![f0]) == spec_field_text(f0),
{
    let mapped = seq![f0].map_values(|f: (Seq<char>, Seq<char>)| spec_field_text(f));
    assert(mapped =~= seq![spec_field_text(f0)]);
    assert(mapped.first() == spec_field_text(f0));
}

/// The body of a two-member object, written out.
pub(crate) proof fn lemma_two_fields(f0: (Seq<char>, Seq<char>), f1: (Seq<char>, Seq<char>))
    ensures
        spec_fields_text(seq![f0, f1]) == spec_field_text(f0) + seq![','] + spec_field_text(f1),
{
    let mapped = seq![f0, f1].map_values(|f: (Seq<char>, Seq<char>)| spec_field_text(f));
    assert(mapped =~= seq![spec_field_text(f0), spec_field_text(f1)]);
    assert(mapped.first() == spec_field_text(f0));
    assert(mapped.drop_first() =~= seq![spec_field_text(f1)]);
    assert(spec_join_sep(seq![spec_field_text(f1)], ',') == spec_field_text(f1));
}

/// The body of a three-member object, written out.
pub(crate) proof fn lemma_three_fields(
    f0: (Seq<char>, Seq<char>),
    f1: (Seq<char>, Seq<char>),
    f2: (Seq<char>, Seq<char>),
)
    ensures
        spec_fields_text(seq![f0, f1, f2]) == spec_field_text(f0) + seq![','] + spec_field_text(f1)
            + seq![','] + spec_field_text(f2),
{
    let mapped = seq![f0, f1, f2].map_values(|f: (Seq<char>, Seq<char>)| spec_field_text(f));
    assert(mapped =~= seq![spec_field_text(f0), spec_field_text(f1), spec_field_text(f2)]);
    assert(mapped.first() == spec_field_text(f0));
    assert(mapped.drop_first() =~= seq![spec_field_text(f1), spec_field_text(f2)]);
    let rest = seq![spec_field_text(f1), spec_field_text(f2)];
    assert(rest.first() == spec_field_text(f1));
    assert(rest.drop_first() =~= seq![spec_field_text(f2)]);
    assert(seq![spec_field_text(f2)].first() == spec_field_text(f2));
    assert(spec_join_sep(seq![spec_field_text(f2)], ',') == spec_field_text(f2));
    assert(spec_join_sep(rest, ',') == spec_field_text(f1) + seq![','] + spec_field_text(f2));
    assert(spec_join_sep(mapped, ',') == spec_field_text(f0) + seq![','] + (spec_field_text(f1)
        + seq![','] + spec_field_text(f2)));
    assert(spec_field_text(f0) + seq![','] + (spec_field_text(f1) + seq![','] + spec_field_text(
        f2,
    )) =~= spec_field_text(f0) + seq![','] + spec_field_text(f1) + seq![','] + spec_field_text(
        f2,
    ));
}

/// The JSON text of a document one level deep: nested texts are written
/// as they stand.
pub open spec fn spec_node_text(n: JsonNodeV) -> Seq<char> {
    match n {
        JsonNodeV::Null => "null"@,
        JsonNodeV::Bool(b) => if b {
            "true"@
        } else {
            "false"@
        },
        JsonNodeV::Num(t) => t,
        JsonNodeV::Str(s) => spec_json_string(s),
        JsonNodeV::Arr(elems) => seq!['['] + spec_join_sep(elems, ',') + seq![']'],
        JsonNodeV::Obj(fields) => seq!['{'] + spec_fields_text(fields) + seq!['}'],
    }
}

/// Appends the JSON text of `n` to `out`.
pub(crate) fn append_json_node(out: &mut String, n: &JsonNode)
    ensures
        final(out)@ == old(out)@ + spec_node_text(n@),
{
    match n {
        JsonNode::Null => {
            out.append("null");
        },
        JsonNode::Bool(b) => {
            if *b {
                out.append("true");
            } else {
                out.append("false");
            }
        },
        JsonNode::Num(t) => {
            out.append(t.as_str());
        },
        JsonNode::Str(t) => {
            append_json_string(out, t.as_str());
        },
        JsonNode::Arr(elems) => {
            push_char(out, '[');
            let n_elems = elems.len();
            let mut i: usize = 0;
            proof {
                assert(elems.deep_view().take(0) =~= Seq::<Seq<char>>::empty());
            }
            while i < n_elems
                invariant
                    i <= n_elems,
                    n_elems == elems@.len(),
                    elems.deep_view().len() == elems@.len(),
                    out@ == old(out)@ + seq!['['] + spec_join_sep(
                        elems.deep_view().take(i as int),
                        ',',
                    ),
                decreases n_elems - i,
            {
                let ghost dv = elems.deep_view();
                proof {
                    assert(dv.take(i as int + 1) =~= dv.take(i as int).push(dv[i as int]));
                    lemma_join_sep_push(dv.take(i as int), dv[i as int], ',');
                    assert(dv[i as int] == elems@[i as int]@);
                }
                if i > 0 {
                    push_char(out, ',');
                }
                out.append(elems[i].as_str());
                proof {
                    assert(out@ =~= old(out)@ + seq!['['] + spec_join_sep(
                        dv.take(i as int + 1),
                        ',',
                    ));
                }
                i = i + 1;
            }
            push_char(out, ']');
            proof {
                assert(elems.deep_view().take(n_elems as int) =~= elems.deep_view());
                assert(out@ =~= old(out)@ + spec_node_text(n@));
            }
        },
        JsonNode::Obj(fields) => {
            push_char(out, '{');
            let n_fields = fields.len();
            let mut i: usize = 0;
            proof {
                assert(fields.deep_view().take(0).map_values(
                    |f: (Seq<char>, Seq<char>)| spec_field_text(f),
                ) =~= Seq::<Seq<char>>::empty());
            }
            while i < n_fields
                invariant
                    i <= n_fields,
                    n_fields == fields@.len(),
                    fields.deep_view().len() == fields@.len(),
                    out@ == old(out)@ + seq!['{'] + spec_join_sep(
                        fields.deep_view().take(i as int).map_values(
                            |f: (Seq<char>, Seq<char>)| spec_field_text(f),
                        ),
                        ',',
                    ),
                decreases n_fields - i,
            {
                let ghost dv = fields.deep_view();
                let ghost mapped = dv.take(i as int).map_values(
                    |f: (Seq<char>, Seq<char>)| spec_field_text(f),
                );
                proof {
                    assert(dv.take(i as int + 1).map_values(
                        |f: (Seq<char>, Seq<char>)| spec_field_text(f),
                    ) =~= mapped.push(spec_field_text(dv[i as int])));
                    lemma_join_sep_push(mapped, spec_field_text(dv[i as int]), ',');
                    assert(dv[i as int].0 == fields@[i as int].0@);
                    assert(dv[i as int].1 == fields@[i as int].1@);
                }
                if i > 0 {
                    push_char(out, ',');
                }
                append_json_string(out, fields[i].0.as_str());
                push_char(out, ':');
                out.append(fields[i].1.as_str());
                proof {
                    assert(out@ =~= old(out)@ + seq!['{'] + spec_join_sep(
                        dv.take(i as int + 1).map_values(
                            |f: (Seq<char>, Seq<char>)| spec_field_text(f),
                        ),
                        ',',
                    ));
                }
                i = i + 1;
            }
            push_char(out, '}');
            proof {
                assert(fields.deep_view().take(n_fields as int) =~= fields.deep_view());
                assert(out@ =~= old(out)@ + spec_node_text(n@));
            }
        },
    }
}

/// The JSON text of `n`.
pub fn json_node_text(n: &JsonNode) -> (r: String)
    ensures
        r@ == spec_node_text(n@),
{
    let mut out = String::new();
    append_json_node(&mut out, n);
    proof {
        assert(out@ =~= spec_node_text(n@));
    }
    out
}

/// The value text of the first member named `key`, if any.
pub open spec fn spec_lookup(fields: Seq<(Seq<char>, Seq<char>)>, key: Seq<char>) -> Option<
    Seq<char>,
>
    decreases fields.len(),
{
    if fields.len() == 0 {
        None
    } else if fields.first().0 == key {
        Some(fields.first().1)
    } else {
        spec_lookup(fields.drop_first(), key)
    }
}

/// Finds the first member of `fields` named `key` and returns its value
/// text.
pub fn lookup_field<'a>(fields: &'a Vec<(String, String)>, key: &str) -> (r: Option<&'a String>)
    ensures
        match r {
            Some(v) => spec_lookup(fields.deep_view(), key@) == Some(v@),
            None => spec_lookup(fields.deep_view(), key@) is None,
        },
{
    let k = key.to_owned();
    let n = fields.len();
    let mut i: usize = 0;
    proof {
        assert(fields.deep_view().skip(0) =~= fields.deep_view());
    }
    while i < n
        invariant
            i <= n,
            n == fields@.len(),
            fields.deep_view().len() == fields@.len(),
            k@ == key@,
            spec_lookup(fields.deep_view(), key@) == spec_lookup(
                fields.deep_view().skip(i as int),
                key@,
            ),
        decreases n - i,
    {
        let ghost dv = fields.deep_view();
        proof {
            assert(dv.skip(i as int).first() == dv[i as int]);
            assert(dv.skip(i as int).drop_first() =~= dv.skip(i as int + 1));
            assert(dv[i as int].0 == fields@[i as int].0@);
            assert(dv[i as int].1 == fields@[i as int].1@);
        }
        if fields[i].0 == k {
            return Some(&fields[i].1);
        }
        i = i + 1;
    }
    proof {
        assert(fields.deep_view().skip(n as int) =~= Seq::<(Seq<char>, Seq<char>)>::empty());
    }
    None
}

} // verus!
