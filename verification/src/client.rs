//! Client configuration and the four client operations: base-URL
//! normalization, the authorization header computed from an API key,
//! building the HTTP exchange for each operation, and decoding the
//! service's reply from the HTTP status and body.

use vstd::prelude::*;

use crate::json::{
    JsonNode, JsonNodeV, lookup_field, parse_json, spec_lookup, spec_parse_json,
};
use crate::models::{
    EpisodicItem, EpisodicItemV, RetrieveRequest, RetrieveRequestV, RetrieveResponse,
    RetrieveResponseV, spec_item_json, spec_request_json,
};
use crate::text::{append_u16_decimal, spec_decimal};

verus! {

/// The text with every trailing `/` removed.
pub open spec fn spec_trim_trailing_slashes(s: Seq<char>) -> Seq<char>
    decreases s.len(),
{
    if s.len() > 0 && s.last() == '/' {
        spec_trim_trailing_slashes(s.drop_last())
    } else {
        s
    }
}

/// Removing one trailing separator before normalizing changes nothing:
/// a base URL written with a trailing `/` normalizes to the same text as
/// the base URL written without it.
pub proof fn lemma_trailing_slash_normalization(u: Seq<char>)
    ensures
        spec_trim_trailing_slashes(u.push('/')) == spec_trim_trailing_slashes(u),
{
    assert(u.push('/').last() == '/');
    assert(u.push('/').drop_last() =~= u);
}

/// Configuration for talking to a Condensate service: where to send
/// requests and which authorization header, if any, to attach to each.
pub struct CondensateClient {
    /// Service root, with no trailing path separator.
    base_url: String,
    /// Full value of the `Authorization` header, present exactly when a
    /// non-empty API key was supplied.
    auth_header: Option<String>,
}

impl CondensateClient {
    /// The normalized base URL this client sends to.
    pub closed spec fn spec_base_url(&self) -> Seq<char> {
        self.base_url@
    }

    /// The `Authorization` header value attached to every request, if any.
    pub closed spec fn spec_auth_header(&self) -> Option<Seq<char>> {
        match self.auth_header {
            Some(h) => Some(h@),
            None => None,
        }
    }

    /// Builds a client for the service at `base_url`. Trailing path
    /// separators are stripped from `base_url`; a non-empty `api_key`
    /// becomes a bearer-token authorization header, an empty one means
    /// requests carry no authorization header at all.
    pub fn new(base_url: &str, api_key: &str) -> (c: CondensateClient)
        ensures
            c.spec_base_url() == spec_trim_trailing_slashes(base_url@),
            api_key@.len() == 0 ==> c.spec_auth_header() is None,
            api_key@.len() > 0 ==> c.spec_auth_header() == Some("Bearer "@ + api_key@),
    {
        let auth_header = if api_key.is_empty() {
            None
        } else {
            let mut h = String::from_str("Bearer ");
            h.append(api_key);
            Some(h)
        };
        CondensateClient { base_url: trim_trailing_slashes(base_url), auth_header }
    }

    /// The normalized base URL, for display.
    pub fn base_url(&self) -> (r: &str)
        ensures
            r@ == self.spec_base_url(),
    {
        self.base_url.as_str()
    }

    /// The `Authorization` header value to attach to every request, or
    /// `None` when the client was built without an API key.
    pub fn auth_header(&self) -> (r: Option<&String>)
        ensures
            match r {
                Some(h) => self.spec_auth_header() == Some(h@),
                None => self.spec_auth_header() is None,
            },
    {
        self.auth_header.as_ref()
    }
}

/// The two ways a client operation fails: the HTTP exchange itself went
/// wrong, or the body received did not have the expected shape.
#[derive(Debug)]
pub enum CondensateError {
    /// Connectivity failure, timeout, or a non-success HTTP status; the
    /// text says which.
    RequestError(String),
    /// The response body could not be parsed into the expected structure.
    SerializationError(String),
}

impl CondensateError {
    /// The human-readable rendering of the error.
    pub open spec fn spec_message(&self) -> Seq<char> {
        match self {
            CondensateError::RequestError(d) => "API Request Failed: "@ + d@,
            CondensateError::SerializationError(d) => "Serialization Error: "@ + d@,
        }
    }

    /// Renders the error as the CLI prints it.
    pub fn message(&self) -> (r: String)
        ensures
            r@ == self.spec_message(),
    {
        match self {
            CondensateError::RequestError(d) => {
                let mut out = String::from_str("API Request Failed: ");
                out.append(d.as_str());
                out
            },
            CondensateError::SerializationError(d) => {
                let mut out = String::from_str("Serialization Error: ");
                out.append(d.as_str());
                out
            },
        }
    }
}

/// One HTTP exchange, ready to be issued: where to POST, which
/// authorization header to attach (if any), and the JSON body.
pub struct HttpPost {
    pub url: String,
    /// Value for the `Authorization` header; no header is sent when absent.
    pub auth_header: Option<String>,
    pub body: String,
}

/// The text of an optional string.
pub open spec fn spec_opt_text(o: Option<String>) -> Option<Seq<char>> {
    match o {
        Some(s) => Some(s@),
        None => None,
    }
}

/// Statuses outside the success range: every client or server error.
pub open spec fn spec_is_error_status(status: u16) -> bool {
    400 <= status < 600
}

/// The detail text carried by a status failure.
pub open spec fn spec_status_detail(status: u16) -> Seq<char> {
    "HTTP status "@ + spec_decimal(status as nat)
}

/// The item identifier in an ingest reply: the `id` member when the reply
/// is an object carrying a string there, and empty otherwise.
pub open spec fn spec_id_of(n: JsonNodeV) -> Seq<char> {
    match n {
        JsonNodeV::Obj(fields) => match spec_lookup(fields, "id"@) {
            Some(raw) => match spec_parse_json(raw) {
                Some(JsonNodeV::Str(s)) => s,
                _ => Seq::empty(),
            },
            None => Seq::empty(),
        },
        _ => Seq::empty(),
    }
}

/// What a parsed reply decodes to as a retrieval response, or `None` when
/// its shape does not fit: the reply must be an object; `answer` may be
/// missing or null (both mean absent) or a string; `context` must be
/// present and an array, kept as the raw text of its elements.
pub open spec fn spec_response_of(n: JsonNodeV) -> Option<RetrieveResponseV> {
    match n {
        JsonNodeV::Obj(fields) => {
            let answer: Option<Option<Seq<char>>> = match spec_lookup(fields, "answer"@) {
                None => Some(None),
                Some(raw) => match spec_parse_json(raw) {
                    Some(JsonNodeV::Null) => Some(None),
                    Some(JsonNodeV::Str(s)) => Some(Some(s)),
                    _ => None,
                },
            };
            let context: Option<Seq<Seq<char>>> = match spec_lookup(fields, "context"@) {
                Some(raw) => match spec_parse_json(raw) {
                    Some(JsonNodeV::Arr(elems)) => Some(elems),
                    _ => None,
                },
                None => None,
            };
            match (answer, context) {
                (Some(a), Some(c)) => Some(RetrieveResponseV { answer: a, context: c }),
                _ => None,
            }
        },
        _ => None,
    }
}

/// The failure reported for a client- or server-error status.
fn status_failure(status: u16) -> (e: CondensateError)
    ensures
        e matches CondensateError::RequestError(d) && d@ == spec_status_detail(status),
{
    let mut d = String::from_str("HTTP status ");
    append_u16_decimal(&mut d, status);
    CondensateError::RequestError(d)
}

/// Reads the item identifier out of a parsed ingest reply.
pub fn id_from_node(n: &JsonNode) -> (r: String)
    ensures
        r@ == spec_id_of(n@),
{
    match n {
        JsonNode::Obj(fields) => match lookup_field(fields, "id") {
            Some(raw) => match parse_json(raw.as_str()) {
                Ok(JsonNode::Str(s)) => s,
                _ => String::new(),
            },
            None => String::new(),
        },
        _ => String::new(),
    }
}

/// Decodes a parsed reply into a retrieval response, or `None` when its
/// shape does not fit.
pub fn response_from_node(n: &JsonNode) -> (r: Option<RetrieveResponse>)
    ensures
        match r {
            Some(resp) => spec_response_of(n@) == Some(resp@),
            None => spec_response_of(n@) is None,
        },
{
    match n {
        JsonNode::Obj(fields) => {
            let answer: Option<String>;
            match lookup_field(fields, "answer") {
                None => {
                    answer = None;
                },
                Some(raw) => match parse_json(raw.as_str()) {
                    Ok(JsonNode::Null) => {
                        answer = None;
                    },
                    Ok(JsonNode::Str(s)) => {
                        answer = Some(s);
                    },
                    _ => {
                        return None;
                    },
                },
            }
            match lookup_field(fields, "context") {
                Some(raw) => match parse_json(raw.as_str()) {
                    Ok(JsonNode::Arr(elems)) => Some(
                        RetrieveResponse { answer, context: elems },
                    ),
                    _ => None,
                },
                None => None,
            }
        },
        _ => None,
    }
}

/// Decodes the reply to an ingest call. A client- or server-error status
/// fails the exchange; otherwise the body must parse as JSON, and the
/// result is the `id` string of the reply object, or empty when there is
/// none.
pub fn decode_add_item(status: u16, body: &str) -> (r: Result<String, CondensateError>)
    ensures
        spec_is_error_status(status) ==> (r matches Err(e) && e matches
            CondensateError::RequestError(d) && d@ == spec_status_detail(status)),
        !spec_is_error_status(status) ==> match spec_parse_json(body@) {
            Some(n) => r matches Ok(id) && id@ == spec_id_of(n),
            None => r matches Err(e) && e is SerializationError,
        },
{
    if 400 <= status && status < 600 {
        return Err(status_failure(status));
    }
    match parse_json(body) {
        Ok(node) => Ok(id_from_node(&node)),
        Err(msg) => Err(CondensateError::SerializationError(msg)),
    }
}

/// Decodes the reply to a retrieval call. A client- or server-error
/// status fails the exchange; otherwise the body must parse as JSON and
/// fit [`spec_response_of`].
pub fn decode_retrieve(status: u16, body: &str) -> (r: Result<
    RetrieveResponse,
    CondensateError,
>)
    ensures
        spec_is_error_status(status) ==> (r matches Err(e) && e matches
            CondensateError::RequestError(d) && d@ == spec_status_detail(status)),
        !spec_is_error_status(status) ==> match spec_parse_json(body@) {
            Some(n) => match spec_response_of(n) {
                Some(v) => r matches Ok(resp) && resp@ == v,
                None => r matches Err(e) && e is SerializationError,
            },
            None => r matches Err(e) && e is SerializationError,
        },
{
    if 400 <= status && status < 600 {
        return Err(status_failure(status));
    }
    match parse_json(body) {
        Ok(node) => match response_from_node(&node) {
            Some(resp) => Ok(resp),
            None => Err(
                CondensateError::SerializationError(
                    String::from_str("response shape mismatch"),
                ),
            ),
        },
        Err(msg) => Err(CondensateError::SerializationError(msg)),
    }
}

/// A reply object with no `answer` member still decodes, with the answer
/// absent rather than an error, and the context passed through unchanged.
pub proof fn lemma_missing_answer_decodes_absent(
    fields: Seq<(Seq<char>, Seq<char>)>,
    ctx_raw: Seq<char>,
    elems: Seq<Seq<char>>,
)
    requires
        spec_lookup(fields, "answer"@) is None,
        spec_lookup(fields, "context"@) == Some(ctx_raw),
        spec_parse_json(ctx_raw) == Some(JsonNodeV::Arr(elems)),
    ensures
        spec_response_of(JsonNodeV::Obj(fields)) matches Some(v) && v.answer is None
            && v.context == elems,
{
}

impl CondensateClient {
    /// The ingest endpoint of this client's service.
    pub fn episodic_url(&self) -> (r: String)
        ensures
            r@ == self.spec_base_url() + "/api/v1/episodic"@,
    {
        let mut u = self.base_url.clone();
        u.append("/api/v1/episodic");
        u
    }

    /// The retrieval endpoint of this client's service.
    pub fn retrieve_url(&self) -> (r: String)
        ensures
            r@ == self.spec_base_url() + "/api/v1/memory/retrieve"@,
    {
        let mut u = self.base_url.clone();
        u.append("/api/v1/memory/retrieve");
        u
    }

    /// A copy of the authorization header value, if one is configured.
    fn auth_header_copy(&self) -> (r: Option<String>)
        ensures
            spec_opt_text(r) == self.spec_auth_header(),
    {
        match &self.auth_header {
            Some(h) => Some(h.clone()),
            None => None,
        }
    }

    /// The HTTP exchange that ingests `item`: POST its serialized form to
    /// the ingest endpoint, under this client's authorization header.
    pub fn add_item_full_request(&self, item: &EpisodicItem) -> (p: HttpPost)
        ensures
            p.url@ == self.spec_base_url() + "/api/v1/episodic"@,
            spec_opt_text(p.auth_header) == self.spec_auth_header(),
            p.body@ == spec_item_json(item@),
    {
        HttpPost {
            url: self.episodic_url(),
            auth_header: self.auth_header_copy(),
            body: item.to_json(),
        }
    }

    /// The HTTP exchange that ingests a plain text memory: an item with
    /// the given text and source and no metadata.
    pub fn add_item_request(&self, text: &str, source: &str) -> (p: HttpPost)
        ensures
            p.url@ == self.spec_base_url() + "/api/v1/episodic"@,
            spec_opt_text(p.auth_header) == self.spec_auth_header(),
            p.body@ == spec_item_json(
                EpisodicItemV { source: source@, text: text@, metadata: None },
            ),
    {
        let item = EpisodicItem {
            source: source.to_owned(),
            text: text.to_owned(),
            metadata: None,
        };
        self.add_item_full_request(&item)
    }

    /// The HTTP exchange for a full retrieval request: POST its serialized
    /// form to the retrieval endpoint, under this client's authorization
    /// header.
    pub fn retrieve_full_request(&self, req: &RetrieveRequest) -> (p: HttpPost)
        ensures
            p.url@ == self.spec_base_url() + "/api/v1/memory/retrieve"@,
            spec_opt_text(p.auth_header) == self.spec_auth_header(),
            p.body@ == spec_request_json(req@),
    {
        HttpPost {
            url: self.retrieve_url(),
            auth_header: self.auth_header_copy(),
            body: req.to_json(),
        }
    }

    /// The HTTP exchange for a plain query: a retrieval request for
    /// `query` that asks the service not to skip answer synthesis.
    pub fn retrieve_request(&self, query: &str) -> (p: HttpPost)
        ensures
            p.url@ == self.spec_base_url() + "/api/v1/memory/retrieve"@,
            spec_opt_text(p.auth_header) == self.spec_auth_header(),
            p.body@ == spec_request_json(
                RetrieveRequestV { query: query@, skip_llm: Some(false) },
            ),
    {
        let req = RetrieveRequest { query: query.to_owned(), skip_llm: Some(false) };
        self.retrieve_full_request(&req)
    }
}

/// Copy of `s` with every trailing `/` removed.
fn trim_trailing_slashes(s: &str) -> (r: String)
    ensures
        r@ == spec_trim_trailing_slashes(s@),
{
    let n = s.unicode_len();
    let mut end: usize = n;
    proof {
        assert(s@.take(n as int) =~= s@);
    }
    while end > 0 && s.get_char(end - 1) == '/'
        invariant
            end <= n,
            n == s@.len(),
            spec_trim_trailing_slashes(s@) == spec_trim_trailing_slashes(s@.take(end as int)),
        decreases end,
    {
        proof {
            assert(s@.take(end as int).last() == s@[end - 1]);
            assert(s@.take(end as int).drop_last() =~= s@.take(end - 1));
        }
        end = end - 1;
    }
    proof {
        if end > 0 {
            assert(s@.take(end as int).last() == s@[end - 1]);
        }
        assert(spec_trim_trailing_slashes(s@.take(end as int)) == s@.take(end as int));
    }
    let r = s.substring_char(0, end);
    proof {
        assert(s@.take(end as int) =~= s@.subrange(0, end as int));
    }
    r.to_owned()
}

} // verus!
