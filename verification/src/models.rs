//! The wire payloads: a memory record to ingest, a retrieval query, and
//! the service's retrieval reply, together with their verified JSON
//! serialization.

use vstd::prelude::*;

use crate::json::{
    JsonNode, JsonNodeV, append_json_node, append_json_string, lemma_one_field, lemma_three_fields,
    lemma_two_fields, spec_field_text, spec_fields_text, spec_json_string, spec_node_text,
};
use crate::text::push_char;

verus! {

/// A memory record submitted for ingestion. `metadata` is an optional
/// list of named JSON documents; when absent, the serialized form carries
/// no `metadata` member at all.
pub struct EpisodicItem {
    /// Origin tag, such as `cli`.
    pub source: String,
    /// The memory content.
    pub text: String,
    /// Optional structured annotations, each member an arbitrary JSON
    /// document.
    pub metadata: Option<Vec<(String, JsonNode)>>,
}

/// Mathematical model of an [`EpisodicItem`].
pub struct EpisodicItemV {
    pub source: Seq<char>,
    pub text: Seq<char>,
    pub metadata: Option<Seq<(Seq<char>, JsonNodeV)>>,
}

impl View for EpisodicItem {
    type V = EpisodicItemV;

    open spec fn view(&self) -> EpisodicItemV {
        EpisodicItemV {
            source: self.source@,
            text: self.text@,
            metadata: match self.metadata {
                Option::None => None,
                Option::Some(m) => Some(m.deep_view()),
            },
        }
    }
}

/// A retrieval query. `skip_llm` is omitted from the serialized form when
/// absent.
pub struct RetrieveRequest {
    pub query: String,
    /// When present, asks the service to skip (or not) answer synthesis.
    pub skip_llm: Option<bool>,
}

/// Mathematical model of a [`RetrieveRequest`].
pub struct RetrieveRequestV {
    pub query: Seq<char>,
    pub skip_llm: Option<bool>,
}

impl View for RetrieveRequest {
    type V = RetrieveRequestV;

    open spec fn view(&self) -> RetrieveRequestV {
        RetrieveRequestV { query: self.query@, skip_llm: self.skip_llm }
    }
}

/// The service's reply to a retrieval call: an optional synthesized
/// answer and the retrieved context items, each kept as its own raw JSON
/// text, in the order the service returned them.
pub struct RetrieveResponse {
    /// The synthesized answer, absent when the service produced none.
    pub answer: Option<String>,
    /// The raw JSON text of each context item.
    pub context: Vec<String>,
}

/// Mathematical model of a [`RetrieveResponse`].
pub struct RetrieveResponseV {
    pub answer: Option<Seq<char>>,
    pub context: Seq<Seq<char>>,
}

impl View for RetrieveResponse {
    type V = RetrieveResponseV;

    open spec fn view(&self) -> RetrieveResponseV {
        RetrieveResponseV {
            answer: match self.answer {
                Option::None => None,
                Option::Some(a) => Some(a@),
            },
            context: self.context.deep_view(),
        }
    }
}

/// The metadata entries as object members: each value rendered to its
/// JSON text.
pub open spec fn spec_metadata_fields(m: Seq<(Seq<char>, JsonNodeV)>) -> Seq<
    (Seq<char>, Seq<char>),
> {
    m.map_values(|p: (Seq<char>, JsonNodeV)| (p.0, spec_node_text(p.1)))
}

/// The members of the serialized item, in order: `source`, `text`, and,
/// only when present, `metadata`.
pub open spec fn spec_item_fields(item: EpisodicItemV) -> Seq<(Seq<char>, Seq<char>)> {
    let base = seq![
        ("source"@, spec_json_string(item.source)),
        ("text"@, spec_json_string(item.text)),
    ];
    match item.metadata {
        None => base,
        Some(m) => base.push(
            ("metadata"@, spec_node_text(JsonNodeV::Obj(spec_metadata_fields(m)))),
        ),
    }
}

/// The serialized wire form of an item: a JSON object over exactly
/// [`spec_item_fields`].
pub open spec fn spec_item_json(item: EpisodicItemV) -> Seq<char> {
    seq!['{'] + spec_fields_text(spec_item_fields(item)) + seq!['}']
}

/// The members of the serialized query, in order: `query` and, only when
/// present, `skip_llm`.
pub open spec fn spec_request_fields(req: RetrieveRequestV) -> Seq<(Seq<char>, Seq<char>)> {
    let base = seq![("query"@, spec_json_string(req.query))];
    match req.skip_llm {
        None => base,
        Some(b) => base.push(
            ("skip_llm"@, if b {
                "true"@
            } else {
                "false"@
            }),
        ),
    }
}

/// The serialized wire form of a query: a JSON object over exactly
/// [`spec_request_fields`].
pub open spec fn spec_request_json(req: RetrieveRequestV) -> Seq<char> {
    seq!['{'] + spec_fields_text(spec_request_fields(req)) + seq!['}']
}

impl EpisodicItem {
    /// Serializes the item to its JSON wire form.
    pub fn to_json(&self) -> (r: String)
        ensures
            r@ == spec_item_json(self@),
    {
        let ghost f0 = ("source"@, spec_json_string(self@.source));
        let ghost f1 = ("text"@, spec_json_string(self@.text));
        let mut out = String::new();
        push_char(&mut out, '{');
        append_json_string(&mut out, "source");
        push_char(&mut out, ':');
        append_json_string(&mut out, self.source.as_str());
        push_char(&mut out, ',');
        append_json_string(&mut out, "text");
        push_char(&mut out, ':');
        append_json_string(&mut out, self.text.as_str());
        proof {
            assert(out@ =~= seq!['{'] + spec_field_text(f0) + seq![','] + spec_field_text(f1));
        }
        match &self.metadata {
            Option::None => {
                push_char(&mut out, '}');
                proof {
                    lemma_two_fields(f0, f1);
                    assert(spec_item_fields(self@) =~= seq![f0, f1]);
                    assert(out@ =~= spec_item_json(self@));
                }
            },
            Option::Some(m) => {
                let mut rendered: Vec<(String, String)> = Vec::new();
                let n_m = m.len();
                let mut i: usize = 0;
                proof {
                    assert(rendered.deep_view() =~~= spec_metadata_fields(m.deep_view()).take(0));
                }
                while i < n_m
                    invariant
                        i <= n_m,
                        n_m == m@.len(),
                        m.deep_view().len() == m@.len(),
                        rendered.deep_view() == spec_metadata_fields(m.deep_view()).take(i as int),
                    decreases n_m - i,
                {
                    let entry = &m[i];
                    let entry_key = entry.0.clone();
                    let entry_text = crate::json::json_node_text(&entry.1);
                    let ghost gk = entry_key@;
                    let ghost gt = entry_text@;
                    let ghost target = spec_metadata_fields(m.deep_view());
                    proof {
                        assert(gk == m.deep_view()[i as int].0);
                        assert(gt == spec_node_text(m.deep_view()[i as int].1));
                        assert(target[i as int] == (gk, gt));
                    }
                    let ghost prev_dv = rendered.deep_view();
                    let ghost prev_raw = rendered@;
                    rendered.push((entry_key, entry_text));
                    proof {
                        assert(rendered@ == prev_raw.push((entry_key, entry_text)));
                        assert forall|j: int| 0 <= j < prev_raw.len() implies #[trigger] rendered.deep_view()[j]
                            == prev_dv[j] by {
                            assert(rendered@[j] == prev_raw[j]);
                        }
                        assert(rendered.deep_view()[prev_raw.len() as int] == (gk, gt));
                        assert(rendered.deep_view() =~~= prev_dv.push((gk, gt)));
                        assert(target.take(i as int + 1) =~~= target.take(i as int).push(
                            target[i as int],
                        ));
                        assert(rendered.deep_view() =~~= target.take(i as int + 1));
                    }
                    i = i + 1;
                }
                proof {
                    assert(spec_metadata_fields(m.deep_view()).take(n_m as int)
                        =~= spec_metadata_fields(m.deep_view()));
                }
                push_char(&mut out, ',');
                append_json_string(&mut out, "metadata");
                push_char(&mut out, ':');
                let meta_node = JsonNode::Obj(rendered);
                append_json_node(&mut out, &meta_node);
                push_char(&mut out, '}');
                proof {
                    let f2 = ("metadata"@, spec_node_text(
                        JsonNodeV::Obj(spec_metadata_fields(m.deep_view())),
                    ));
                    assert(meta_node@ == JsonNodeV::Obj(spec_metadata_fields(m.deep_view())));
                    lemma_three_fields(f0, f1, f2);
                    assert(spec_item_fields(self@) =~= seq![f0, f1, f2]);
                    assert(out@ =~= spec_item_json(self@));
                }
            },
        }
        out
    }
}

impl RetrieveRequest {
    /// Serializes the query to its JSON wire form.
    pub fn to_json(&self) -> (r: String)
        ensures
            r@ == spec_request_json(self@),
    {
        let ghost f0 = ("query"@, spec_json_string(self@.query));
        let mut out = String::new();
        push_char(&mut out, '{');
        append_json_string(&mut out, "query");
        push_char(&mut out, ':');
        append_json_string(&mut out, self.query.as_str());
        proof {
            assert(out@ =~= seq!['{'] + spec_field_text(f0));
        }
        match self.skip_llm {
            Option::None => {
                push_char(&mut out, '}');
                proof {
                    lemma_one_field(f0);
                    assert(spec_request_fields(self@) =~= seq![f0]);
                    assert(out@ =~= spec_request_json(self@));
                }
            },
            Option::Some(b) => {
                push_char(&mut out, ',');
                append_json_string(&mut out, "skip_llm");
                push_char(&mut out, ':');
                if b {
                    out.append("true");
                } else {
                    out.append("false");
                }
                push_char(&mut out, '}');
                proof {
                    let f1 = ("skip_llm"@, if b {
                        "true"@
                    } else {
                        "false"@
                    });
                    lemma_two_fields(f0, f1);
                    assert(spec_request_fields(self@) =~= seq![f0, f1]);
                    assert(out@ =~= spec_request_json(self@));
                }
            },
        }
        out
    }
}

/// With `metadata` absent, the serialized item is an object of exactly
/// two members, `source` and `text`: no `metadata` member is written.
pub proof fn lemma_absent_metadata_is_omitted(item: EpisodicItemV)
    requires
        item.metadata is None,
    ensures
        spec_item_json(item) == seq!['{'] + spec_fields_text(spec_item_fields(item)) + seq!['}'],
        spec_item_fields(item).len() == 2,
        spec_item_fields(item)[0].0 == "source"@,
        spec_item_fields(item)[1].0 == "text"@,
        forall|i: int|
            0 <= i < spec_item_fields(item).len() ==> (#[trigger] spec_item_fields(
                item,
            )[i]).0 != "metadata"@,
{
    reveal_strlit("source");
    reveal_strlit("text");
    reveal_strlit("metadata");
    assert(("source")@.len() == 6);
    assert(("text")@.len() == 4);
    assert(("metadata")@.len() == 8);
    assert forall|i: int|
        0 <= i < spec_item_fields(item).len() implies (#[trigger] spec_item_fields(
        item,
    )[i]).0 != "metadata"@ by {
        if i == 0 {
            assert(spec_item_fields(item)[0].0 == "source"@);
        } else {
            assert(spec_item_fields(item)[1].0 == "text"@);
        }
    }
}

/// With `skip_llm` absent, the serialized query is an object of exactly
/// one member, `query`: no `skip_llm` member is written.
pub proof fn lemma_absent_skip_llm_is_omitted(req: RetrieveRequestV)
    requires
        req.skip_llm is None,
    ensures
        spec_request_json(req) == seq!['{'] + spec_fields_text(spec_request_fields(req))
            + seq!['}'],
        spec_request_fields(req).len() == 1,
        spec_request_fields(req)[0].0 == "query"@,
        forall|i: int|
            0 <= i < spec_request_fields(req).len() ==> (#[trigger] spec_request_fields(
                req,
            )[i]).0 != "skip_llm"@,
{
    reveal_strlit("query");
    reveal_strlit("skip_llm");
    assert(("query")@.len() == 5);
    assert(("skip_llm")@.len() == 8);
}

} // verus!
