//! The request layer: an endpoint description goes in, a complete request
//! comes out.
//!
//! An [`Endpoint`] names the method, a path template with its parameters, the
//! query parameters and the body with its encoding. [`build`] turns it into a
//! [`Request`]: the absolute URL, the two fixed headers from the
//! [`ClientConfig`] and the encoded body. Sending the request is the caller's
//! business.

use vstd::prelude::*;
use vstd::string::*;
use crate::decimal::{decimal, push_decimal};
use crate::encoding::{escaped, push_encoded};

verus! {

/// The HTTP methods the service's endpoints use.
#[derive(Clone, Copy, Debug, PartialEq, Eq, Structural)]
pub enum Method {
    Get,
    Post,
    Delete,
}

/// A parameter value: a piece of text or a number.
#[derive(Clone, Debug, PartialEq, Eq)]
pub enum Param {
    Text(String),
    Number(u64),
}

impl Param {
    /// The value as plain text, before any encoding.
    pub open spec fn text(self) -> Seq<char> {
        match self {
            Param::Text(s) => s@,
            Param::Number(n) => decimal(n as nat),
        }
    }

    /// The value as plain text, before any encoding.
    pub fn to_text(&self) -> (out: String)
        ensures
            out@ == self.text(),
    {
        match self {
            Param::Text(s) => s.clone(),
            Param::Number(n) => {
                let mut out = String::new();
                push_decimal(&mut out, *n);
                assert(out@ =~= decimal(*n as nat));
                out
            },
        }
    }
}

/// The JSON string literal for a text, quotes and escapes included, as
/// `serde_json` writes it.
pub uninterp spec fn json_string_literal(text: Seq<char>) -> Seq<char>;

/// Calls `serde_json::to_string` on a string slice. The result is the JSON
/// string literal for that text and depends on the text alone. Serialising a
/// string has no way to fail: the serialiser writes into memory and a string
/// has no map keys.
#[verifier::external_body]
fn json_quote(text: &str) -> (quoted: String)
    ensures
        quoted@ == json_string_literal(text@),
{
    serde_json::to_string(text).unwrap_or_default()
}

/// Named parameters, in the order they are written out.
pub type Params = Vec<(String, Param)>;

/// The first `k` pairs as `key=value` items joined by `&`, keys and values
/// percent-encoded.
pub open spec fn joined_pairs(pairs: Seq<(String, Param)>, k: int) -> Seq<char>
    decreases k,
{
    if k <= 0 {
        Seq::empty()
    } else {
        joined_pairs(pairs, k - 1) + (if k > 1 {
            seq!['&']
        } else {
            Seq::empty()
        }) + escaped(pairs[k - 1].0@) + seq!['='] + escaped(pairs[k - 1].1.text())
    }
}

/// All pairs in URL-encoded form; empty for no pairs.
pub open spec fn form_text(pairs: Seq<(String, Param)>) -> Seq<char> {
    joined_pairs(pairs, pairs.len() as int)
}

/// How a value is written inside a JSON document: text as a string literal, a
/// number as its decimal digits.
pub open spec fn json_param_text(value: Param) -> Seq<char> {
    match value {
        Param::Text(s) => json_string_literal(s@),
        Param::Number(n) => decimal(n as nat),
    }
}

/// The first `k` pairs as JSON object members joined by `,`.
pub open spec fn joined_members(pairs: Seq<(String, Param)>, k: int) -> Seq<char>
    decreases k,
{
    if k <= 0 {
        Seq::empty()
    } else {
        joined_members(pairs, k - 1) + (if k > 1 {
            seq![',']
        } else {
            Seq::empty()
        }) + json_string_literal(pairs[k - 1].0@) + seq![':'] + json_param_text(pairs[k - 1].1)
    }
}

/// All pairs as one JSON object.
pub open spec fn json_object_text(pairs: Seq<(String, Param)>) -> Seq<char> {
    seq!['{'] + joined_members(pairs, pairs.len() as int) + seq!['}']
}

/// The literal pieces of a path template with the first `k` parameters filled
/// into the gaps between them, each parameter percent-encoded.
pub open spec fn filled_path(pieces: Seq<String>, params: Seq<Param>, k: int) -> Seq<char>
    decreases k,
{
    if k <= 0 {
        pieces[0]@
    } else {
        filled_path(pieces, params, k - 1) + escaped(params[k - 1].text()) + pieces[k]@
    }
}

/// The body of a call together with the way it is encoded. Exactly one of the
/// three applies to a call.
#[derive(Clone, Debug, PartialEq, Eq)]
pub enum Body {
    /// No body is sent.
    Empty,
    /// The parameters as one JSON object, sent as `application/json`.
    Json(Params),
    /// The parameters URL-encoded, sent as `application/x-www-form-urlencoded`.
    Form(Params),
}

impl Body {
    /// The bytes on the wire, as text; `None` where no body is sent.
    pub open spec fn text(self) -> Option<Seq<char>> {
        match self {
            Body::Empty => None,
            Body::Json(pairs) => Some(json_object_text(pairs@)),
            Body::Form(pairs) => Some(form_text(pairs@)),
        }
    }

    /// The media type announced for the body; `None` where no body is sent.
    pub open spec fn content_type(self) -> Option<Seq<char>> {
        match self {
            Body::Empty => None,
            Body::Json(_) => Some("application/json"@),
            Body::Form(_) => Some("application/x-www-form-urlencoded"@),
        }
    }
}

/// One call to the service, described but not yet put together.
#[derive(Clone, Debug, PartialEq, Eq)]
pub struct Endpoint {
    pub method: Method,
    /// The literal pieces of the path template; a parameter fills each gap
    /// between two neighbours.
    pub pieces: Vec<String>,
    /// The path parameters, in the order of the gaps.
    pub path_params: Vec<Param>,
    /// The query parameters; none means no query string.
    pub query: Params,
    pub body: Body,
}

impl Endpoint {
    /// A template of `n + 1` pieces takes exactly `n` parameters.
    pub open spec fn wf(self) -> bool {
        self.pieces@.len() == self.path_params@.len() + 1
    }

    /// The path with every parameter filled in.
    pub open spec fn path(self) -> Seq<char> {
        filled_path(self.pieces@, self.path_params@, self.path_params@.len() as int)
    }

    /// The path followed by `?` and the query string where there are query
    /// parameters, and the bare path where there are none.
    pub open spec fn target(self) -> Seq<char> {
        if self.query@.len() == 0 {
            self.path()
        } else {
            self.path() + seq!['?'] + form_text(self.query@)
        }
    }

    /// Whether the template has one more piece than there are parameters.
    pub fn is_wf(&self) -> (ok: bool)
        ensures
            ok == self.wf(),
    {
        self.pieces.len() >= 1 && self.pieces.len() - 1 == self.path_params.len()
    }
}

/// The origin of the service.
pub const NEXUS_API_BASE_URL: &'static str = "https://api.nexusmods.com";

/// The signature this client sends as its user agent.
pub const USER_AGENT: &'static str = "RUSTY_NEXUS/1.0";

/// What every request of one client shares: the key, the origin and the
/// client's signature. It is set once and only read afterwards.
#[derive(Debug, PartialEq, Eq)]
pub struct ClientConfig {
    pub api_key: String,
    pub base_url: String,
    pub user_agent: String,
}

/// Whether a header may carry these bytes as its value: every byte is a tab
/// or is neither a control character nor DEL.
pub open spec fn is_header_value(bytes: Seq<u8>) -> bool {
    forall|i: int|
        0 <= i < bytes.len() ==> ((#[trigger] bytes[i]) >= 32 && bytes[i] != 127) || bytes[i] == 9
}

/// Calls `reqwest::header::HeaderValue::from_str` and says whether it took the
/// text. It takes a text exactly when each of its bytes is a tab or is at
/// least 32 and not 127.
#[verifier::external_body]
fn header_value_accepts(text: &str) -> (ok: bool)
    ensures
        ok == is_header_value(text.spec_bytes()),
{
    reqwest::header::HeaderValue::from_str(text).is_ok()
}

/// Whether `api_key` can be sent as the value of the key header.
pub fn is_valid_api_key(api_key: &str) -> (ok: bool)
    ensures
        ok == is_header_value(api_key.spec_bytes()),
{
    header_value_accepts(api_key)
}

impl Clone for ClientConfig {
    fn clone(&self) -> (copy: ClientConfig)
        ensures
            copy == *self,
    {
        ClientConfig {
            api_key: self.api_key.clone(),
            base_url: self.base_url.clone(),
            user_agent: self.user_agent.clone(),
        }
    }
}

impl ClientConfig {
    /// The configuration for the service's own origin and this client's
    /// signature, with the given key.
    pub fn new(api_key: &str) -> (config: ClientConfig)
        ensures
            config.api_key@ == api_key@,
            config.base_url@ == NEXUS_API_BASE_URL@,
            config.user_agent@ == USER_AGENT@,
    {
        ClientConfig {
            api_key: String::from_str(api_key),
            base_url: String::from_str(NEXUS_API_BASE_URL),
            user_agent: String::from_str(USER_AGENT),
        }
    }
}

/// A request as mathematics sees it.
pub struct RequestView {
    pub method: Method,
    pub url: Seq<char>,
    pub headers: Seq<(Seq<char>, Seq<char>)>,
    pub body: Option<Seq<char>>,
}

/// A request ready to be sent.
#[derive(Clone, Debug, PartialEq, Eq)]
pub struct Request {
    pub method: Method,
    /// The absolute URL, query string included.
    pub url: String,
    /// Header names and values, in the order they are to be sent.
    pub headers: Vec<(String, String)>,
    pub body: Option<String>,
}

impl View for Request {
    type V = RequestView;

    open spec fn view(&self) -> RequestView {
        RequestView {
            method: self.method,
            url: self.url@,
            headers: Seq::new(
                self.headers@.len(),
                |i: int| (self.headers@[i].0@, self.headers@[i].1@),
            ),
            body: match self.body {
                Some(text) => Some(text@),
                None => None,
            },
        }
    }
}

/// The headers of a request: the key, the client's signature, and the media
/// type of the body where there is one.
pub open spec fn headers_for(config: ClientConfig, media: Option<Seq<char>>) -> Seq<
    (Seq<char>, Seq<char>),
> {
    let fixed = seq![("apikey"@, config.api_key@), ("user-agent"@, config.user_agent@)];
    match media {
        Some(media) => fixed.push(("content-type"@, media)),
        None => fixed,
    }
}

/// A request without a body.
pub open spec fn bare_request(config: ClientConfig, method: Method, target: Seq<char>) -> RequestView {
    RequestView {
        method,
        url: config.base_url@ + target,
        headers: headers_for(config, None),
        body: None,
    }
}

/// A request with a body of the given media type.
pub open spec fn body_request(
    config: ClientConfig,
    method: Method,
    target: Seq<char>,
    media: Seq<char>,
    body: Seq<char>,
) -> RequestView {
    RequestView {
        method,
        url: config.base_url@ + target,
        headers: headers_for(config, Some(media)),
        body: Some(body),
    }
}

/// The request that an endpoint stands for under a configuration.
pub open spec fn request_for(config: ClientConfig, endpoint: Endpoint) -> RequestView {
    RequestView {
        method: endpoint.method,
        url: config.base_url@ + endpoint.target(),
        headers: headers_for(config, endpoint.body.content_type()),
        body: endpoint.body.text(),
    }
}

fn push_escaped(out: &mut String, value: &Param)
    ensures
        final(out)@ == old(out)@ + escaped(value.text()),
{
    let text = value.to_text();
    push_encoded(out, text.as_str());
}

/// Appends one `key=value` item, with `&` before it unless it is the first.
fn push_pair(out: &mut String, first: bool, key: &str, value: &Param)
    ensures
        final(out)@ == old(out)@ + (if first {
            Seq::<char>::empty()
        } else {
            seq!['&']
        }) + escaped(key@) + seq!['='] + escaped(value.text()),
{
    let ghost start = out@;
    if !first {
        out.push('&');
    }
    push_encoded(out, key);
    out.push('=');
    push_escaped(out, value);
    assert(out@ =~= start + (if first {
        Seq::<char>::empty()
    } else {
        seq!['&']
    }) + escaped(key@) + seq!['='] + escaped(value.text()));
}

/// Appends the pairs in URL-encoded form: `key=value` items joined by `&`.
pub fn push_form(out: &mut String, pairs: &Params)
    ensures
        final(out)@ == old(out)@ + form_text(pairs@),
{
    let n = pairs.len();
    let mut i: usize = 0;
    assert(out@ =~= old(out)@ + joined_pairs(pairs@, 0));
    while i < n
        invariant
            n == pairs@.len(),
            i <= n,
            out@ == old(out)@ + joined_pairs(pairs@, i as int),
        decreases n - i,
    {
        let pair = &pairs[i];
        let ghost before = out@;
        push_pair(out, i == 0, pair.0.as_str(), &pair.1);
        assert(out@ =~= old(out)@ + joined_pairs(pairs@, i + 1));
        i += 1;
    }
}

/// Appends one member of a JSON object, with `,` before it unless it is the
/// first. The key and the value come already written as JSON.
pub fn push_json_member(out: &mut String, first: bool, key_json: &str, value_json: &str)
    ensures
        final(out)@ == old(out)@ + (if first {
            Seq::<char>::empty()
        } else {
            seq![',']
        }) + key_json@ + seq![':'] + value_json@,
{
    let ghost start = out@;
    if !first {
        out.push(',');
    }
    out.append(key_json);
    out.push(':');
    out.append(value_json);
    assert(out@ =~= start + (if first {
        Seq::<char>::empty()
    } else {
        seq![',']
    }) + key_json@ + seq![':'] + value_json@);
}

/// How `value` is written inside a JSON document.
fn json_param(value: &Param) -> (text: String)
    ensures
        text@ == json_param_text(*value),
{
    match value {
        Param::Text(s) => json_quote(s.as_str()),
        Param::Number(_) => value.to_text(),
    }
}

/// Appends the pairs as one JSON object.
pub fn push_json_object(out: &mut String, pairs: &Params)
    ensures
        final(out)@ == old(out)@ + json_object_text(pairs@),
{
    out.push('{');
    let n = pairs.len();
    let mut i: usize = 0;
    assert(out@ =~= old(out)@ + seq!['{'] + joined_members(pairs@, 0));
    while i < n
        invariant
            n == pairs@.len(),
            i <= n,
            out@ == old(out)@ + seq!['{'] + joined_members(pairs@, i as int),
        decreases n - i,
    {
        let pair = &pairs[i];
        let key_json = json_quote(pair.0.as_str());
        let value_json = json_param(&pair.1);
        push_json_member(out, i == 0, key_json.as_str(), value_json.as_str());
        assert(out@ =~= old(out)@ + seq!['{'] + joined_members(pairs@, i + 1));
        i += 1;
    }
    out.push('}');
    assert(out@ =~= old(out)@ + json_object_text(pairs@));
}

impl Body {
    /// The body as it goes on the wire; `None` where no body is sent.
    pub fn encode(&self) -> (out: Option<String>)
        ensures
            match out {
                Some(text) => self.text() == Some(text@),
                None => self.text() is None,
            },
    {
        match self {
            Body::Empty => None,
            Body::Json(pairs) => {
                let mut text = String::new();
                push_json_object(&mut text, pairs);
                assert(text@ =~= json_object_text(pairs@));
                Some(text)
            },
            Body::Form(pairs) => {
                let mut text = String::new();
                push_form(&mut text, pairs);
                assert(text@ =~= form_text(pairs@));
                Some(text)
            },
        }
    }

    /// The media type to announce for the body; `None` where no body is sent.
    pub fn media_type(&self) -> (out: Option<String>)
        ensures
            match out {
                Some(text) => self.content_type() == Some(text@),
                None => self.content_type() is None,
            },
    {
        match self {
            Body::Empty => None,
            Body::Json(_) => Some(String::from_str("application/json")),
            Body::Form(_) => Some(String::from_str("application/x-www-form-urlencoded")),
        }
    }
}

impl Endpoint {
    /// Appends the path with every parameter filled in.
    pub fn push_path(&self, out: &mut String)
        requires
            self.wf(),
        ensures
            final(out)@ == old(out)@ + self.path(),
    {
        let n = self.path_params.len();
        out.append(self.pieces[0].as_str());
        let mut i: usize = 0;
        while i < n
            invariant
                self.wf(),
                n == self.path_params@.len(),
                i <= n,
                out@ == old(out)@ + filled_path(self.pieces@, self.path_params@, i as int),
            decreases n - i,
        {
            push_escaped(out, &self.path_params[i]);
            out.append(self.pieces[i + 1].as_str());
            assert(out@ =~= old(out)@ + filled_path(self.pieces@, self.path_params@, i + 1));
            i += 1;
        }
    }

    /// Appends the path and, where there are query parameters, `?` and the
    /// query string.
    pub fn push_target(&self, out: &mut String)
        requires
            self.wf(),
        ensures
            final(out)@ == old(out)@ + self.target(),
    {
        self.push_path(out);
        if self.query.len() > 0 {
            out.push('?');
            push_form(out, &self.query);
            assert(out@ =~= old(out)@ + self.target());
        }
    }
}

/// Puts together the request that `endpoint` stands for.
///
/// The URL is the configured origin followed by the endpoint's path and query
/// string. The headers are the key and the client's signature from `config`,
/// once each and in that order, followed by the body's media type where a body
/// is sent.
pub fn build(config: &ClientConfig, endpoint: &Endpoint) -> (request: Request)
    requires
        endpoint.wf(),
    ensures
        request@ == request_for(*config, *endpoint),
{
    let mut url = config.base_url.clone();
    endpoint.push_target(&mut url);
    let mut headers: Vec<(String, String)> = Vec::new();
    headers.push((String::from_str("apikey"), config.api_key.clone()));
    headers.push((String::from_str("user-agent"), config.user_agent.clone()));
    match endpoint.body.media_type() {
        Some(media) => {
            headers.push((String::from_str("content-type"), media));
        },
        None => {},
    }
    let body = endpoint.body.encode();
    let request = Request { method: endpoint.method, url, headers, body };
    assert(request@.headers =~= headers_for(*config, endpoint.body.content_type()));
    request
}

/// Puts together the request that `endpoint` stands for, or gives `None`
/// where the path template and the path parameters do not fit together.
pub fn try_build(config: &ClientConfig, endpoint: &Endpoint) -> (request: Option<Request>)
    ensures
        match request {
            Some(request) => endpoint.wf() && request@ == request_for(*config, *endpoint),
            None => !endpoint.wf(),
        },
{
    if endpoint.is_wf() {
        Some(build(config, endpoint))
    } else {
        None
    }
}

/// How many of the headers have the given name.
pub open spec fn count_named(headers: Seq<(Seq<char>, Seq<char>)>, name: Seq<char>) -> nat
    decreases headers.len(),
{
    if headers.len() == 0 {
        0
    } else {
        count_named(headers.drop_last(), name) + if headers.last().0 == name {
            1nat
        } else {
            0nat
        }
    }
}

/// Every request carries the key header exactly once and the signature
/// header exactly once, each with the value from the configuration, whatever
/// the endpoint is.
pub proof fn lemma_fixed_headers_once(config: ClientConfig, endpoint: Endpoint)
    ensures
        count_named(request_for(config, endpoint).headers, "apikey"@) == 1,
        count_named(request_for(config, endpoint).headers, "user-agent"@) == 1,
        request_for(config, endpoint).headers[0] == ("apikey"@, config.api_key@),
        request_for(config, endpoint).headers[1] == ("user-agent"@, config.user_agent@),
{
    reveal_strlit("apikey");
    reveal_strlit("user-agent");
    reveal_strlit("content-type");
    let headers = request_for(config, endpoint).headers;
    let fixed = seq![("apikey"@, config.api_key@), ("user-agent"@, config.user_agent@)];
    assert("apikey"@ != "user-agent"@) by {
        assert("apikey"@.len() != "user-agent"@.len());
    }
    assert("apikey"@ != "content-type"@) by {
        assert("apikey"@.len() != "content-type"@.len());
    }
    assert("user-agent"@ != "content-type"@) by {
        assert("user-agent"@.len() != "content-type"@.len());
    }
    assert(fixed.drop_last() =~= seq![("apikey"@, config.api_key@)]);
    assert(fixed.drop_last().drop_last() =~= Seq::<(Seq<char>, Seq<char>)>::empty());
    reveal_with_fuel(count_named, 4);
    assert(count_named(fixed, "apikey"@) == 1);
    assert(count_named(fixed, "user-agent"@) == 1);
    match endpoint.body.content_type() {
        Some(media) => {
            assert(headers.drop_last() =~= fixed);
        },
        None => {
            assert(headers =~= fixed);
        },
    }
}

/// An endpoint without query parameters gives a URL without a query string:
/// the origin and the path, and no `?` behind them.
pub proof fn lemma_no_parameters_no_query(config: ClientConfig, endpoint: Endpoint)
    requires
        endpoint.query@.len() == 0,
    ensures
        request_for(config, endpoint).url == config.base_url@ + endpoint.path(),
{
}

/// Query parameters and body do not get in each other's way: the URL is the
/// same whatever the body is, and the body is the same whatever the query
/// parameters are.
pub proof fn lemma_query_and_body_are_independent(config: ClientConfig, a: Endpoint, b: Endpoint)
    ensures
        a.pieces == b.pieces && a.path_params == b.path_params && a.query == b.query
            ==> request_for(config, a).url == request_for(config, b).url,
        a.body == b.body ==> request_for(config, a).body == request_for(config, b).body
            && request_for(config, a).headers == request_for(config, b).headers,
{
}

} // verus!
