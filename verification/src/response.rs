//! The response layer: a status code and a body go in, a typed value or a
//! classified failure comes out.
//!
//! A reply outside the 2xx range is an HTTP failure and keeps its body as it
//! came; the body is not read as JSON. A 2xx reply is read as JSON and then
//! as the expected payload; where either step fails the result is a decode
//! failure with a short excerpt of the body.

use vstd::prelude::*;
use vstd::string::*;
use crate::json::{json_document, parse, Json};

verus! {

/// The most characters of a body that a decode failure carries along.
pub const EXCERPT_LIMIT: usize = 256;

/// Why a call did not give a value.
#[derive(Clone, Debug, PartialEq, Eq)]
pub enum ApiError {
    /// The server could not be reached or the exchange broke off.
    Transport { message: String },
    /// The server answered with a status outside the 2xx range.
    Http { status: u16, body: String },
    /// The server answered with success, but the body is not what was expected.
    Decode { message: String, excerpt: String },
}

/// An [`ApiError`] as mathematics sees it.
pub enum ApiErrorView {
    Transport { message: Seq<char> },
    Http { status: u16, body: Seq<char> },
    Decode { message: Seq<char>, excerpt: Seq<char> },
}

impl View for ApiError {
    type V = ApiErrorView;

    open spec fn view(&self) -> ApiErrorView {
        match *self {
            ApiError::Transport { message } => ApiErrorView::Transport { message: message@ },
            ApiError::Http { status, body } => ApiErrorView::Http { status, body: body@ },
            ApiError::Decode { message, excerpt } => ApiErrorView::Decode {
                message: message@,
                excerpt: excerpt@,
            },
        }
    }
}

/// A reply as it came: the status, the headers and the body.
#[derive(Clone, Debug, PartialEq, Eq)]
pub struct RawResponse {
    pub status: u16,
    pub headers: Vec<(String, String)>,
    pub body: String,
}

/// The payload of a successful reply, together with the status and the
/// headers that it came with.
#[derive(Clone, Debug, PartialEq, Eq)]
pub struct TypedResponse<T> {
    pub status: u16,
    pub headers: Vec<(String, String)>,
    pub value: T,
}

/// A type that a JSON document can be read as.
pub trait Payload: DeepView + Sized {
    /// The value that `json` holds when read as this type, or `None` where
    /// `json` does not have the shape of this type.
    spec fn parsed(json: Json) -> Option<<Self as DeepView>::V>;

    /// Reads `json` as this type.
    fn from_json(json: &Json) -> (value: Option<Self>)
        ensures
            match value {
                Some(v) => Self::parsed(*json) == Some(v.deep_view()),
                None => Self::parsed(*json) is None,
            },
    ;
}

/// A JSON string is read as its text; nothing else is taken for a string.
impl Payload for String {
    open spec fn parsed(json: Json) -> Option<Seq<char>> {
        json.text()
    }

    fn from_json(json: &Json) -> (value: Option<String>) {
        match json.as_text() {
            Some(text) => Some(text.clone()),
            None => None,
        }
    }
}

/// A JSON array is read item by item; it has the shape of a list of `T` only
/// where every item has the shape of `T`.
impl<T: Payload> Payload for Vec<T> {
    open spec fn parsed(json: Json) -> Option<Seq<<T as DeepView>::V>> {
        match json {
            Json::Array(items) => if forall|i: int|
                0 <= i < items@.len() ==> (#[trigger] T::parsed(items@[i])) is Some {
                Some(Seq::new(items@.len(), |i: int| T::parsed(items@[i])->0))
            } else {
                None
            },
            _ => None,
        }
    }

    fn from_json(json: &Json) -> (value: Option<Vec<T>>) {
        match json {
            Json::Array(items) => {
                let n = items.len();
                let mut out: Vec<T> = Vec::new();
                let mut i: usize = 0;
                while i < n
                    invariant
                        n == items@.len(),
                        i <= n,
                        *json == Json::Array(*items),
                        out@.len() == i,
                        forall|k: int|
                            0 <= k < i ==> (#[trigger] T::parsed(items@[k])) == Some(
                                out@[k].deep_view(),
                            ),
                    decreases n - i,
                {
                    match T::from_json(&items[i]) {
                        Some(item) => {
                            out.push(item);
                        },
                        None => {
                            return None;
                        },
                    }
                    i += 1;
                }
                assert(out.deep_view() =~= Seq::new(
                    items@.len(),
                    |k: int| T::parsed(items@[k])->0,
                ));
                Some(out)
            },
            _ => None,
        }
    }
}

/// Whether a status code reports success.
pub open spec fn is_success(status: u16) -> bool {
    200 <= status <= 299
}

/// The leading part of a body that a decode failure carries: the whole body
/// where it is short, its first [`EXCERPT_LIMIT`] characters otherwise.
pub open spec fn excerpt_of(body: Seq<char>) -> Seq<char> {
    if body.len() <= EXCERPT_LIMIT {
        body
    } else {
        body.take(EXCERPT_LIMIT as int)
    }
}

/// The message of a decode failure for a body that is JSON of another shape.
pub open spec fn shape_message() -> Seq<char> {
    "body does not have the expected shape"@
}

/// What a body that was read as JSON amounts to for a payload type.
pub open spec fn interpreted<T: Payload>(body: Seq<char>, document: Result<Json, String>) -> Result<
    <T as DeepView>::V,
    ApiErrorView,
> {
    match document {
        Err(message) => Err(ApiErrorView::Decode { message: message@, excerpt: excerpt_of(body) }),
        Ok(json) => match T::parsed(json) {
            Some(value) => Ok(value),
            None => Err(ApiErrorView::Decode { message: shape_message(), excerpt: excerpt_of(body) }),
        },
    }
}

/// What a reply amounts to for a payload type.
pub open spec fn outcome<T: Payload>(status: u16, body: Seq<char>) -> Result<
    <T as DeepView>::V,
    ApiErrorView,
> {
    if is_success(status) {
        interpreted::<T>(body, json_document(body))
    } else {
        Err(ApiErrorView::Http { status, body })
    }
}

/// Whether `result` is the outcome `expected`, value for value.
pub open spec fn agrees<T: Payload>(
    result: Result<T, ApiError>,
    expected: Result<<T as DeepView>::V, ApiErrorView>,
) -> bool {
    match result {
        Ok(value) => expected == Ok::<<T as DeepView>::V, ApiErrorView>(value.deep_view()),
        Err(error) => expected == Err::<<T as DeepView>::V, ApiErrorView>(error@),
    }
}

/// A successful reply whose body has the expected shape decodes to the value
/// that the document holds.
pub proof fn lemma_matching_body_decodes<T: Payload>(status: u16, body: Seq<char>, json: Json)
    requires
        is_success(status),
        json_document(body) == Ok::<Json, String>(json),
        T::parsed(json) is Some,
    ensures
        outcome::<T>(status, body) == Ok::<<T as DeepView>::V, ApiErrorView>(T::parsed(json)->0),
{
}

/// A reply with a status from 400 to 599 is an HTTP failure with that status
/// and the body as it came. What the body holds plays no part: it may be a
/// perfect payload or no JSON at all.
pub proof fn lemma_failure_status_keeps_body<T: Payload>(status: u16, body: Seq<char>)
    requires
        400 <= status <= 599,
    ensures
        outcome::<T>(status, body) == Err::<<T as DeepView>::V, ApiErrorView>(
            ApiErrorView::Http { status, body },
        ),
        document_outcome(status, body) == Err::<Json, ApiErrorView>(
            ApiErrorView::Http { status, body },
        ),
{
}

/// A successful reply whose body is JSON of another shape is a decode
/// failure: no value is made up for what is missing.
pub proof fn lemma_other_shape_fails<T: Payload>(status: u16, body: Seq<char>, json: Json)
    requires
        is_success(status),
        json_document(body) == Ok::<Json, String>(json),
        T::parsed(json) is None,
    ensures
        outcome::<T>(status, body) == Err::<<T as DeepView>::V, ApiErrorView>(
            ApiErrorView::Decode { message: shape_message(), excerpt: excerpt_of(body) },
        ),
{
}

/// Whether `status` reports success.
pub fn status_is_success(status: u16) -> (ok: bool)
    ensures
        ok == is_success(status),
{
    200 <= status && status <= 299
}

/// The excerpt of `body` that a decode failure carries.
pub fn excerpt(body: &str) -> (out: String)
    ensures
        out@ == excerpt_of(body@),
{
    if body.unicode_len() <= EXCERPT_LIMIT {
        String::from_str(body)
    } else {
        let head = body.substring_char(0, EXCERPT_LIMIT);
        assert(head@ =~= body@.take(EXCERPT_LIMIT as int));
        String::from_str(head)
    }
}

/// Turns the body of a successful reply, already read as JSON, into the
/// payload or a decode failure.
pub fn interpret<T: Payload>(body: &str, document: Result<Json, String>) -> (result: Result<
    T,
    ApiError,
>)
    ensures
        agrees::<T>(result, interpreted::<T>(body@, document)),
{
    match document {
        Err(message) => Err(ApiError::Decode { message, excerpt: excerpt(body) }),
        Ok(json) => match T::from_json(&json) {
            Some(value) => Ok(value),
            None => Err(
                ApiError::Decode {
                    message: String::from_str("body does not have the expected shape"),
                    excerpt: excerpt(body),
                },
            ),
        },
    }
}

/// What a reply amounts to when any JSON document will do.
pub open spec fn document_outcome(status: u16, body: Seq<char>) -> Result<Json, ApiErrorView> {
    if is_success(status) {
        match json_document(body) {
            Ok(json) => Ok(json),
            Err(message) => Err(
                ApiErrorView::Decode { message: message@, excerpt: excerpt_of(body) },
            ),
        }
    } else {
        Err(ApiErrorView::Http { status, body })
    }
}

/// Classifies a reply and reads its body as JSON, whatever its shape.
///
/// A status outside the 2xx range gives an HTTP failure with that status and
/// the body unchanged, whatever the body holds. A 2xx status gives the
/// document that the body denotes, and a decode failure where the body is
/// not JSON.
pub fn decode_document(status: u16, body: &str) -> (result: Result<Json, ApiError>)
    ensures
        match result {
            Ok(json) => document_outcome(status, body@) == Ok::<Json, ApiErrorView>(json),
            Err(error) => document_outcome(status, body@) == Err::<Json, ApiErrorView>(error@),
        },
{
    if !status_is_success(status) {
        return Err(ApiError::Http { status, body: String::from_str(body) });
    }
    match parse(body) {
        Ok(json) => Ok(json),
        Err(message) => Err(ApiError::Decode { message, excerpt: excerpt(body) }),
    }
}

/// Classifies a reply and decodes its body.
///
/// A status outside the 2xx range gives an HTTP failure with that status and
/// the body unchanged, whatever the body holds. A 2xx status gives the
/// payload where the body is JSON of the expected shape, and a decode failure
/// otherwise.
pub fn decode<T: Payload>(status: u16, body: &str) -> (result: Result<T, ApiError>)
    ensures
        agrees::<T>(result, outcome::<T>(status, body@)),
        !is_success(status) ==> (result matches Err(ApiError::Http { status: s, body: b }) && s
            == status && b@ == body@),
{
    if !status_is_success(status) {
        return Err(ApiError::Http { status, body: String::from_str(body) });
    }
    interpret::<T>(body, parse(body))
}

/// Classifies a reply and decodes its body, keeping the status and the
/// headers beside the payload for callers that need them.
pub fn decode_response<T: Payload>(raw: RawResponse) -> (result: Result<TypedResponse<T>, ApiError>)
    ensures
        match result {
            Ok(typed) => {
                &&& outcome::<T>(raw.status, raw.body@) == Ok::<<T as DeepView>::V, ApiErrorView>(
                    typed.value.deep_view(),
                )
                &&& typed.status == raw.status
                &&& typed.headers == raw.headers
            },
            Err(error) => outcome::<T>(raw.status, raw.body@) == Err::<
                <T as DeepView>::V,
                ApiErrorView,
            >(error@),
        },
{
    match decode::<T>(raw.status, raw.body.as_str()) {
        Ok(value) => Ok(TypedResponse { status: raw.status, headers: raw.headers, value }),
        Err(error) => Err(error),
    }
}

/// What an exchange amounts to for a payload type: a transport failure
/// where no reply came, and the outcome of the reply otherwise.
pub open spec fn concluded<T: Payload>(exchange: Result<RawResponse, String>) -> Result<
    <T as DeepView>::V,
    ApiErrorView,
> {
    match exchange {
        Ok(raw) => outcome::<T>(raw.status, raw.body@),
        Err(message) => Err(ApiErrorView::Transport { message: message@ }),
    }
}

/// Turns the end of an exchange into the result of the call: the payload, or
/// one of the three kinds of failure. `exchange` is the reply, or the
/// transport's message where no reply came.
pub fn conclude<T: Payload>(exchange: Result<RawResponse, String>) -> (result: Result<T, ApiError>)
    ensures
        agrees::<T>(result, concluded::<T>(exchange)),
{
    match exchange {
        Ok(raw) => decode::<T>(raw.status, raw.body.as_str()),
        Err(message) => Err(ApiError::Transport { message }),
    }
}

/// The same for a call whose reply may be any JSON document.
pub fn conclude_document(exchange: Result<RawResponse, String>) -> (result: Result<Json, ApiError>)
    ensures
        match exchange {
            Ok(raw) => match result {
                Ok(json) => document_outcome(raw.status, raw.body@) == Ok::<Json, ApiErrorView>(
                    json,
                ),
                Err(error) => document_outcome(raw.status, raw.body@) == Err::<
                    Json,
                    ApiErrorView,
                >(error@),
            },
            Err(message) => result matches Err(error) && error@ == (ApiErrorView::Transport {
                message: message@,
            }),
        },
{
    match exchange {
        Ok(raw) => decode_document(raw.status, raw.body.as_str()),
        Err(message) => Err(ApiError::Transport { message }),
    }
}

} // verus!
