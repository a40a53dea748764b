//! The request builder: a consuming, fluent value that accumulates a method,
//! a target URI, header fields and query parameters, and materializes an
//! immutable [`Request`] on demand. Header names are stored under their
//! lower-case form, keys are unique, and a repeated insertion under one key
//! keeps only the latest value.

use vstd::prelude::*;
use vstd::string::StringExecFns;

use crate::ascii::{lower_seq, lower_str};
use crate::json::{fields_flat, flat_text_of, is_flat_value, merged_json, JsonValue};
use crate::kv::{merged_pairs, KvMap};

verus! {

/// The HTTP method of a request.
#[derive(Clone, Copy, Debug, PartialEq, Eq, Structural)]
pub enum Method {
    Get,
    Post,
    Put,
    Delete,
    Head,
}

/// Why a builder call was rejected: the target URI does not parse, or a JSON
/// document handed to [`RequestBuilder::query_from_json`] is not a flat
/// object.
#[derive(Clone, Copy, Debug, PartialEq, Eq, Structural)]
pub enum BuildError {
    InvalidUri,
    UnsupportedJsonShape,
}

/// A well-known header together with its value. Raw headers under any other
/// name go through [`RequestBuilder::header_raw`].
#[derive(Debug)]
pub enum TypedHeader {
    ContentType(String),
    Accept(String),
}

impl TypedHeader {
    /// The canonical lower-case name the header is stored under.
    pub open spec fn name(self) -> Seq<char> {
        match self {
            TypedHeader::ContentType(_) => "content-type"@,
            TypedHeader::Accept(_) => "accept"@,
        }
    }

    /// The value carried by the header.
    pub open spec fn value(self) -> Seq<char> {
        match self {
            TypedHeader::ContentType(v) => v@,
            TypedHeader::Accept(v) => v@,
        }
    }
}

#[verifier::external_type_specification]
#[verifier::external_body]
pub struct ExUri(hyper::Uri);

/// Whether hyper's URI parser accepts the string; success is a function of
/// the characters alone.
pub uninterp spec fn uri_parse_ok(s: Seq<char>) -> bool;

/// Relies on `hyper::Uri`'s `FromStr` impl (the `http` crate's URI parser):
/// whether a string parses depends on its characters alone, and the empty
/// string is always rejected.
#[verifier::external_body]
fn parse_uri(s: &str) -> (r: Option<hyper::Uri>)
    ensures
        r is Some <==> uri_parse_ok(s@),
        s@.len() == 0 ==> r is None,
{
    match s.parse::<hyper::Uri>() {
        Ok(u) => Some(u),
        Err(_) => None,
    }
}

/// An immutable request value: the chosen method, the parsed target URI (and
/// the text it was parsed from), and the final header set. Query parameters
/// accumulated on the builder are not merged into the URI: callers apply them
/// before handing the request to an HTTP client.
#[derive(Debug)]
pub struct Request {
    /// The HTTP method.
    pub method: Method,
    /// The parsed target URI.
    pub uri: hyper::Uri,
    /// The text the URI was parsed from.
    pub uri_text: String,
    /// The final header set, keyed by lower-case header name.
    pub headers: KvMap,
}

/// What a builder holds: its method, the URI text, and the header and query
/// maps.
pub ghost struct BuilderState {
    /// The HTTP method.
    pub method: Method,
    /// The target URI text, unvalidated until `build`.
    pub uri: Seq<char>,
    /// The headers, keyed by lower-case header name; last write wins.
    pub headers: Map<Seq<char>, Seq<char>>,
    /// The query parameters; last write wins.
    pub queries: Map<Seq<char>, Seq<char>>,
}

/// A fluent, consuming builder for [`Request`] values. Every configuration
/// call takes the builder by value and returns it, so a chain of calls owns
/// the builder throughout.
pub struct RequestBuilder {
    method: Method,
    uri: String,
    headers: KvMap,
    queries: KvMap,
}

impl View for RequestBuilder {
    type V = BuilderState;

    closed spec fn view(&self) -> BuilderState {
        BuilderState {
            method: self.method,
            uri: self.uri@,
            headers: self.headers@,
            queries: self.queries@,
        }
    }
}

impl RequestBuilder {
    /// The header and query maps hold pairwise distinct keys.
    pub closed spec fn wf(&self) -> bool {
        self.headers.wf() && self.queries.wf()
    }

    fn new(method: Method, uri: &str) -> (r: Self)
        ensures
            r.wf(),
            r@.method == method,
            r@.uri == uri@,
            r@.headers == Map::<Seq<char>, Seq<char>>::empty(),
            r@.queries == Map::<Seq<char>, Seq<char>>::empty(),
    {
        RequestBuilder {
            method,
            uri: String::from_str(uri),
            headers: KvMap::new(),
            queries: KvMap::new(),
        }
    }

    /// A builder for a GET request on the given URI, with no headers and no
    /// query parameters.
    pub fn get(uri: &str) -> (r: Self)
        ensures
            r.wf(),
            r@.method == Method::Get,
            r@.uri == uri@,
            r@.headers == Map::<Seq<char>, Seq<char>>::empty(),
            r@.queries == Map::<Seq<char>, Seq<char>>::empty(),
    {
        Self::new(Method::Get, uri)
    }

    /// A builder for a POST request on the given URI.
    pub fn post(uri: &str) -> (r: Self)
        ensures
            r.wf(),
            r@.method == Method::Post,
            r@.uri == uri@,
            r@.headers == Map::<Seq<char>, Seq<char>>::empty(),
            r@.queries == Map::<Seq<char>, Seq<char>>::empty(),
    {
        Self::new(Method::Post, uri)
    }

    /// A builder for a PUT request on the given URI.
    pub fn put(uri: &str) -> (r: Self)
        ensures
            r.wf(),
            r@.method == Method::Put,
            r@.uri == uri@,
            r@.headers == Map::<Seq<char>, Seq<char>>::empty(),
            r@.queries == Map::<Seq<char>, Seq<char>>::empty(),
    {
        Self::new(Method::Put, uri)
    }

    /// A builder for a DELETE request on the given URI.
    pub fn delete(uri: &str) -> (r: Self)
        ensures
            r.wf(),
            r@.method == Method::Delete,
            r@.uri == uri@,
            r@.headers == Map::<Seq<char>, Seq<char>>::empty(),
            r@.queries == Map::<Seq<char>, Seq<char>>::empty(),
    {
        Self::new(Method::Delete, uri)
    }

    /// A builder for a HEAD request on the given URI.
    pub fn head(uri: &str) -> (r: Self)
        ensures
            r.wf(),
            r@.method == Method::Head,
            r@.uri == uri@,
            r@.headers == Map::<Seq<char>, Seq<char>>::empty(),
            r@.queries == Map::<Seq<char>, Seq<char>>::empty(),
    {
        Self::new(Method::Head, uri)
    }

    /// The chosen method.
    pub fn method(&self) -> (r: Method)
        ensures
            r == self@.method,
    {
        self.method
    }

    /// The target URI text.
    pub fn uri(&self) -> (r: &String)
        ensures
            r@ == self@.uri,
    {
        &self.uri
    }

    /// The accumulated headers.
    pub fn headers(&self) -> (r: &KvMap)
        requires
            self.wf(),
        ensures
            r.wf(),
            r@ == self@.headers,
    {
        &self.headers
    }

    /// The accumulated query parameters.
    pub fn queries(&self) -> (r: &KvMap)
        requires
            self.wf(),
        ensures
            r.wf(),
            r@ == self@.queries,
    {
        &self.queries
    }

    /// Parses the URI text and materializes the request: the chosen method,
    /// the parsed URI and the accumulated headers. Returns
    /// [`BuildError::InvalidUri`] exactly when the URI text does not parse.
    /// The accumulated query parameters are not merged into the URI; apply
    /// them before handing the request to an HTTP client.
    pub fn build(self) -> (r: Result<Request, BuildError>)
        requires
            self.wf(),
        ensures
            r is Ok <==> uri_parse_ok(self@.uri),
            r matches Ok(req) ==> req.method == self@.method && req.uri_text@ == self@.uri
                && req.headers@ == self@.headers && req.headers.wf(),
            r is Err ==> r == Err::<Request, BuildError>(BuildError::InvalidUri),
    {
        match parse_uri(self.uri.as_str()) {
            Some(u) => Ok(
                Request { method: self.method, uri: u, uri_text: self.uri, headers: self.headers },
            ),
            None => Err(BuildError::InvalidUri),
        }
    }
}

// query parameters
impl RequestBuilder {
    /// Removes every query parameter set so far.
    pub fn clear_query(self) -> (r: Self)
        requires
            self.wf(),
        ensures
            r.wf(),
            r@.queries == Map::<Seq<char>, Seq<char>>::empty(),
            r@.headers == self@.headers,
            r@.method == self@.method,
            r@.uri == self@.uri,
    {
        let mut b = self;
        b.queries.clear();
        b
    }

    /// Sets one query parameter; an earlier value under the same key is
    /// replaced.
    pub fn query(self, key: &str, value: &str) -> (r: Self)
        requires
            self.wf(),
        ensures
            r.wf(),
            r@.queries == self@.queries.insert(key@, value@),
            r@.headers == self@.headers,
            r@.method == self@.method,
            r@.uri == self@.uri,
    {
        let mut b = self;
        b.queries.insert(String::from_str(key), String::from_str(value));
        b
    }

    /// Merges a sequence of key/value pairs into the query parameters, in
    /// order: a later pair wins over an earlier one and over an existing
    /// parameter.
    pub fn query_from_pairs(self, pairs: &Vec<(String, String)>) -> (r: Self)
        requires
            self.wf(),
        ensures
            r.wf(),
            r@.queries == merged_pairs(self@.queries, pairs@),
            r@.headers == self@.headers,
            r@.method == self@.method,
            r@.uri == self@.uri,
    {
        let ghost orig = self@;
        let mut b = self;
        let n: usize = pairs.len();
        let mut i: usize = 0;
        while i < n
            invariant
                n == pairs@.len(),
                i <= n,
                b.wf(),
                b@.queries == merged_pairs(orig.queries, pairs@.subrange(0, i as int)),
                b@.headers == orig.headers,
                b@.method == orig.method,
                b@.uri == orig.uri,
            decreases n - i,
        {
            let key = pairs[i].0.clone();
            let value = pairs[i].1.clone();
            proof {
                let t = pairs@.subrange(0, i + 1);
                assert(t.drop_last() =~= pairs@.subrange(0, i as int));
                assert(t.last() == pairs@[i as int]);
            }
            b.queries.insert(key, value);
            i = i + 1;
        }
        proof {
            assert(pairs@.subrange(0, n as int) =~= pairs@);
        }
        b
    }

    /// Flattens the top-level fields of a JSON object into the query
    /// parameters: a number contributes its text, a string its characters,
    /// null the empty string. Returns
    /// [`BuildError::UnsupportedJsonShape`] exactly when the value is not an
    /// object or some field holds a boolean, an array or a nested object.
    pub fn query_from_json(self, json: JsonValue) -> (r: Result<Self, BuildError>)
        requires
            self.wf(),
        ensures
            r is Ok <==> (json matches JsonValue::Object(fields) && fields_flat(fields@)),
            r matches Ok(b) ==> (json matches JsonValue::Object(fields) && b.wf() && b@.queries
                == merged_json(self@.queries, fields@) && b@.headers == self@.headers && b@.method
                == self@.method && b@.uri == self@.uri),
            r is Err ==> r == Err::<RequestBuilder, BuildError>(BuildError::UnsupportedJsonShape),
    {
        let ghost orig = self@;
        let mut b = self;
        match json {
            JsonValue::Object(fields) => {
                let n: usize = fields.len();
                let mut i: usize = 0;
                while i < n
                    invariant
                        json == JsonValue::Object(fields),
                        n == fields@.len(),
                        i <= n,
                        forall|j: int| 0 <= j < i ==> is_flat_value(#[trigger] fields@[j].1),
                        b.wf(),
                        b@.queries == merged_json(orig.queries, fields@.subrange(0, i as int)),
                        b@.headers == orig.headers,
                        b@.method == orig.method,
                        b@.uri == orig.uri,
                    decreases n - i,
                {
                    let value: String = match &fields[i].1 {
                        JsonValue::Number(s) => s.clone(),
                        JsonValue::Text(s) => s.clone(),
                        JsonValue::Null => String::new(),
                        _ => {
                            proof {
                                assert(!is_flat_value(fields@[i as int].1));
                                assert(!fields_flat(fields@));
                            }
                            return Err(BuildError::UnsupportedJsonShape);
                        },
                    };
                    let key = fields[i].0.clone();
                    proof {
                        assert(is_flat_value(fields@[i as int].1));
                        assert(value@ == flat_text_of(fields@[i as int].1));
                        let t = fields@.subrange(0, i + 1);
                        assert(t.drop_last() =~= fields@.subrange(0, i as int));
                        assert(t.last() == fields@[i as int]);
                    }
                    b.queries.insert(key, value);
                    i = i + 1;
                }
                proof {
                    assert(fields@.subrange(0, n as int) =~= fields@);
                }
                Ok(b)
            },
            _ => Err(BuildError::UnsupportedJsonShape),
        }
    }
}

// headers
impl RequestBuilder {
    /// Removes every header set so far.
    pub fn clear_header(self) -> (r: Self)
        requires
            self.wf(),
        ensures
            r.wf(),
            r@.headers == Map::<Seq<char>, Seq<char>>::empty(),
            r@.queries == self@.queries,
            r@.method == self@.method,
            r@.uri == self@.uri,
    {
        let mut b = self;
        b.headers.clear();
        b
    }

    /// Sets a well-known header; an earlier header of the same kind is
    /// replaced.
    pub fn header(self, h: TypedHeader) -> (r: Self)
        requires
            self.wf(),
        ensures
            r.wf(),
            r@.headers == self@.headers.insert(h.name(), h.value()),
            r@.queries == self@.queries,
            r@.method == self@.method,
            r@.uri == self@.uri,
    {
        let mut b = self;
        match h {
            TypedHeader::ContentType(v) => {
                b.headers.insert(String::from_str("content-type"), v);
            },
            TypedHeader::Accept(v) => {
                b.headers.insert(String::from_str("accept"), v);
            },
        }
        b
    }

    /// Sets a header by name; the name is stored in its lower-case form, and
    /// an earlier value under that name is replaced.
    pub fn header_raw(self, key: &str, value: &str) -> (r: Self)
        requires
            self.wf(),
        ensures
            r.wf(),
            r@.headers == self@.headers.insert(lower_seq(key@), value@),
            r@.queries == self@.queries,
            r@.method == self@.method,
            r@.uri == self@.uri,
    {
        let mut b = self;
        b.headers.insert(lower_str(key), String::from_str(value));
        b
    }

    /// Sets the `Content-Type` header to the given value.
    pub fn content_type(self, raw: &str) -> (r: Self)
        requires
            self.wf(),
        ensures
            r.wf(),
            r@.headers == self@.headers.insert("content-type"@, raw@),
            r@.queries == self@.queries,
            r@.method == self@.method,
            r@.uri == self@.uri,
    {
        let mut b = self;
        b.headers.insert(String::from_str("content-type"), String::from_str(raw));
        b
    }

    /// Sets the `Content-Type` header to the JSON media type,
    /// `application/json`, with no charset parameter.
    pub fn content_type_json(self) -> (r: Self)
        requires
            self.wf(),
        ensures
            r.wf(),
            r@.headers == self@.headers.insert("content-type"@, "application/json"@),
            r@.queries == self@.queries,
            r@.method == self@.method,
            r@.uri == self@.uri,
    {
        let mut b = self;
        b.headers.insert(
            String::from_str("content-type"),
            String::from_str("application/json"),
        );
        b
    }

    /// Sets the `Content-Type` header to `application/x-www-form-urlencoded`.
    pub fn content_type_x_www_form_urlencoded(self) -> (r: Self)
        requires
            self.wf(),
        ensures
            r.wf(),
            r@.headers == self@.headers.insert(
                "content-type"@,
                "application/x-www-form-urlencoded"@,
            ),
            r@.queries == self@.queries,
            r@.method == self@.method,
            r@.uri == self@.uri,
    {
        let mut b = self;
        b.headers.insert(
            String::from_str("content-type"),
            String::from_str("application/x-www-form-urlencoded"),
        );
        b
    }

    /// Sets the `Accept` header to the given value.
    pub fn accept(self, raw: &str) -> (r: Self)
        requires
            self.wf(),
        ensures
            r.wf(),
            r@.headers == self@.headers.insert("accept"@, raw@),
            r@.queries == self@.queries,
            r@.method == self@.method,
            r@.uri == self@.uri,
    {
        let mut b = self;
        b.headers.insert(String::from_str("accept"), String::from_str(raw));
        b
    }

    /// Sets the `Accept` header to `application/json`.
    pub fn accept_json(self) -> (r: Self)
        requires
            self.wf(),
        ensures
            r.wf(),
            r@.headers == self@.headers.insert("accept"@, "application/json"@),
            r@.queries == self@.queries,
            r@.method == self@.method,
            r@.uri == self@.uri,
    {
        let mut b = self;
        b.headers.insert(String::from_str("accept"), String::from_str("application/json"));
        b
    }
}

/// Setting a header twice under one name keeps only the second value: after
/// `header_raw(k, v)` and then `header_raw(k, v2)` on any builder, the header
/// set is the set after the second call alone, and the lowered name maps to
/// `v2`; no duplicate entry arises.
pub proof fn lemma_header_last_write_wins(
    headers: Map<Seq<char>, Seq<char>>,
    k: Seq<char>,
    v: Seq<char>,
    v2: Seq<char>,
)
    ensures
        headers.insert(lower_seq(k), v).insert(lower_seq(k), v2) == headers.insert(
            lower_seq(k),
            v2,
        ),
        headers.insert(lower_seq(k), v).insert(lower_seq(k), v2)[lower_seq(k)] == v2,
        headers.insert(lower_seq(k), v).insert(lower_seq(k), v2).dom() == headers.dom().insert(
            lower_seq(k),
        ),
{
    assert(headers.insert(lower_seq(k), v).insert(lower_seq(k), v2) =~= headers.insert(
        lower_seq(k),
        v2,
    ));
    assert(headers.insert(lower_seq(k), v).insert(lower_seq(k), v2).dom() =~= headers.dom().insert(
        lower_seq(k),
    ));
}

} // verus!
