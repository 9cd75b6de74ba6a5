//! The paths of the service's resources. All of them live under `/v1`.

use vstd::prelude::*;
use vstd::string::*;
use crate::decimal::{decimal, lemma_decimal_is_plain};
use crate::encoding::{decoded, is_encoded_char, lemma_escaped_round_trip};
use vstd::utf8::{decode_utf8, encode_utf8};
use crate::encoding::{escaped, is_plain, lemma_escaped_plain};
use crate::request::{
    filled_path, form_text, joined_members, joined_pairs, json_object_text, json_param_text,
    json_string_literal, Body, Endpoint, Method, Param, Params,
};

verus! {

/// A path below a game: `/v1/games/{game}` and a literal tail.
pub open spec fn game_route(game: Seq<char>, tail: Seq<char>) -> Seq<char> {
    "/v1/games/"@ + escaped(game) + tail
}

/// A path below a mod: `/v1/games/{game}/mods/{mod_id}` and a literal tail.
pub open spec fn mod_route(game: Seq<char>, mod_id: u32, tail: Seq<char>) -> Seq<char> {
    "/v1/games/"@ + escaped(game) + "/mods/"@ + decimal(mod_id as nat) + tail
}

/// A path below a file:
/// `/v1/games/{game}/mods/{mod_id}/files/{file_id}` and a literal tail.
pub open spec fn file_route(game: Seq<char>, mod_id: u32, file_id: u32, tail: Seq<char>) -> Seq<
    char,
> {
    "/v1/games/"@ + escaped(game) + "/mods/"@ + decimal(mod_id as nat) + "/files/"@ + decimal(
        file_id as nat,
    ) + tail
}

/// Whether a text is free of `?`, the character that starts a query string.
pub open spec fn has_no_query_mark(text: Seq<char>) -> bool {
    forall|i: int| 0 <= i < text.len() ==> #[trigger] text[i] != '?'
}

proof fn lemma_joined_has_no_query_mark(a: Seq<char>, b: Seq<char>)
    requires
        has_no_query_mark(a),
        has_no_query_mark(b),
    ensures
        has_no_query_mark(a + b),
{
    assert forall|i: int| 0 <= i < (a + b).len() implies #[trigger] (a + b)[i] != '?' by {
        if i < a.len() {
            assert((a + b)[i] == a[i]);
        } else {
            assert((a + b)[i] == b[i - a.len()]);
        }
    }
}

proof fn lemma_escaped_has_no_query_mark(value: Seq<char>)
    ensures
        has_no_query_mark(escaped(value)),
{
    lemma_escaped_round_trip(value);
    assert forall|i: int| 0 <= i < escaped(value).len() implies #[trigger] escaped(value)[i]
        != '?' by {
        assert(is_encoded_char(escaped(value)[i]));
    }
}

/// The paths of this module hold no `?` of their own: whatever the game is
/// called, a path ends where its tail ends, and a query string begins only
/// where a query parameter was added.
pub proof fn lemma_routes_have_no_query_mark(
    game: Seq<char>,
    mod_id: u32,
    file_id: u32,
    tail: Seq<char>,
)
    requires
        has_no_query_mark(tail),
    ensures
        has_no_query_mark(game_route(game, tail)),
        has_no_query_mark(mod_route(game, mod_id, tail)),
        has_no_query_mark(file_route(game, mod_id, file_id, tail)),
{
    reveal_strlit("/v1/games/");
    reveal_strlit("/mods/");
    reveal_strlit("/files/");
    lemma_escaped_has_no_query_mark(game);
    lemma_decimal_is_plain(mod_id as nat);
    lemma_decimal_is_plain(file_id as nat);
    lemma_escaped_has_no_query_mark(decimal(mod_id as nat));
    lemma_escaped_has_no_query_mark(decimal(file_id as nat));
    let head = "/v1/games/"@ + escaped(game);
    lemma_joined_has_no_query_mark("/v1/games/"@, escaped(game));
    lemma_joined_has_no_query_mark(head, tail);
    let below_mods = head + "/mods/"@;
    lemma_joined_has_no_query_mark(head, "/mods/"@);
    let with_mod = below_mods + decimal(mod_id as nat);
    lemma_joined_has_no_query_mark(below_mods, decimal(mod_id as nat));
    lemma_joined_has_no_query_mark(with_mod, tail);
    let below_files = with_mod + "/files/"@;
    lemma_joined_has_no_query_mark(with_mod, "/files/"@);
    let with_file = below_files + decimal(file_id as nat);
    lemma_joined_has_no_query_mark(below_files, decimal(file_id as nat));
    lemma_joined_has_no_query_mark(with_file, tail);
}

/// The name of the game can be read back from any path below it. Right
/// behind `/v1/games/` stands the escaped name; it holds no `/`, so it ends
/// where the next segment begins; and decoding it gives the bytes that spell
/// the name, whatever characters the name is made of.
pub proof fn lemma_game_reads_back(game: Seq<char>, tail: Seq<char>)
    ensures
        "/v1/games/"@.len() == 10,
        game_route(game, tail).subrange(10, 10 + escaped(game).len() as int) == escaped(game),
        forall|i: int| 0 <= i < escaped(game).len() ==> #[trigger] escaped(game)[i] != '/',
        decoded(escaped(game)) == Some(encode_utf8(game)),
        decode_utf8(encode_utf8(game)) == game,
{
    reveal_strlit("/v1/games/");
    lemma_escaped_round_trip(game);
    let segment = escaped(game);
    assert forall|i: int| 0 <= i < segment.len() implies #[trigger] segment[i] != '/' by {
        assert(is_encoded_char(segment[i]));
    }
    assert(game_route(game, tail).subrange(10, 10 + segment.len() as int) =~= segment);
}

/// An endpoint at a fixed path, with no query and no body yet.
pub fn fixed_endpoint(method: Method, path: &str) -> (endpoint: Endpoint)
    ensures
        endpoint.wf(),
        endpoint.method == method,
        endpoint.path() == path@,
        endpoint.query@.len() == 0,
        endpoint.body == Body::Empty,
{
    let mut pieces: Vec<String> = Vec::new();
    pieces.push(String::from_str(path));
    Endpoint { method, pieces, path_params: Vec::new(), query: Vec::new(), body: Body::Empty }
}

/// An endpoint below a game, with no query and no body yet.
pub fn game_endpoint(method: Method, game: &str, tail: &str) -> (endpoint: Endpoint)
    ensures
        endpoint.wf(),
        endpoint.method == method,
        endpoint.path() == game_route(game@, tail@),
        endpoint.query@.len() == 0,
        endpoint.body == Body::Empty,
{
    let mut pieces: Vec<String> = Vec::new();
    pieces.push(String::from_str("/v1/games/"));
    pieces.push(String::from_str(tail));
    let mut path_params: Vec<Param> = Vec::new();
    path_params.push(Param::Text(String::from_str(game)));
    let endpoint = Endpoint { method, pieces, path_params, query: Vec::new(), body: Body::Empty };
    proof {
        reveal_with_fuel(filled_path, 2);
        assert(endpoint.path() =~= game_route(game@, tail@));
    }
    endpoint
}

/// An endpoint below a mod, with no query and no body yet.
pub fn mod_endpoint(method: Method, game: &str, mod_id: u32, tail: &str) -> (endpoint: Endpoint)
    ensures
        endpoint.wf(),
        endpoint.method == method,
        endpoint.path() == mod_route(game@, mod_id, tail@),
        endpoint.query@.len() == 0,
        endpoint.body == Body::Empty,
{
    let mut pieces: Vec<String> = Vec::new();
    pieces.push(String::from_str("/v1/games/"));
    pieces.push(String::from_str("/mods/"));
    pieces.push(String::from_str(tail));
    let mut path_params: Vec<Param> = Vec::new();
    path_params.push(Param::Text(String::from_str(game)));
    path_params.push(Param::Number(mod_id as u64));
    let endpoint = Endpoint { method, pieces, path_params, query: Vec::new(), body: Body::Empty };
    proof {
        reveal_with_fuel(filled_path, 3);
        lemma_decimal_is_plain(mod_id as nat);
        assert(endpoint.path() =~= mod_route(game@, mod_id, tail@));
    }
    endpoint
}

/// An endpoint below a file, with no query and no body yet.
pub fn file_endpoint(method: Method, game: &str, mod_id: u32, file_id: u32, tail: &str) -> (endpoint:
    Endpoint)
    ensures
        endpoint.wf(),
        endpoint.method == method,
        endpoint.path() == file_route(game@, mod_id, file_id, tail@),
        endpoint.query@.len() == 0,
        endpoint.body == Body::Empty,
{
    let mut pieces: Vec<String> = Vec::new();
    pieces.push(String::from_str("/v1/games/"));
    pieces.push(String::from_str("/mods/"));
    pieces.push(String::from_str("/files/"));
    pieces.push(String::from_str(tail));
    let mut path_params: Vec<Param> = Vec::new();
    path_params.push(Param::Text(String::from_str(game)));
    path_params.push(Param::Number(mod_id as u64));
    path_params.push(Param::Number(file_id as u64));
    let endpoint = Endpoint { method, pieces, path_params, query: Vec::new(), body: Body::Empty };
    proof {
        reveal_with_fuel(filled_path, 4);
        lemma_decimal_is_plain(mod_id as nat);
        lemma_decimal_is_plain(file_id as nat);
        assert(endpoint.path() =~= file_route(game@, mod_id, file_id, tail@));
    }
    endpoint
}

/// One query parameter as it stands in a URL: `?` before the first and `&`
/// before any other, then the key, `=` and the percent-encoded value.
pub open spec fn query_item(first: bool, key: Seq<char>, value: Seq<char>) -> Seq<char> {
    (if first {
        seq!['?']
    } else {
        seq!['&']
    }) + key + seq!['='] + escaped(value)
}

/// A form body of one field: the key, `=` and the percent-encoded value.
pub open spec fn form_field(key: Seq<char>, value: Seq<char>) -> Seq<char> {
    key + seq!['='] + escaped(value)
}

/// A JSON object of one member, whose value is already written as JSON.
pub open spec fn json_member(key: Seq<char>, value_json: Seq<char>) -> Seq<char> {
    seq!['{'] + json_string_literal(key) + seq![':'] + value_json + seq!['}']
}

/// The endpoint with one more query parameter behind those it has.
pub fn with_query(endpoint: Endpoint, key: &str, value: Param) -> (out: Endpoint)
    requires
        endpoint.wf(),
        is_plain(key@),
    ensures
        out.wf(),
        out.method == endpoint.method,
        out.path() == endpoint.path(),
        out.body == endpoint.body,
        out.query@.len() == endpoint.query@.len() + 1,
        out.target() == endpoint.target() + query_item(
            endpoint.query@.len() == 0,
            key@,
            value.text(),
        ),
{
    let mut out = endpoint;
    let ghost before = out.query@;
    let ghost text = value.text();
    out.query.push((String::from_str(key), value));
    proof {
        let after = out.query@;
        let n = before.len() as int;
        lemma_escaped_plain(key@);
        lemma_joined_pairs_prefix(before, after, n);
        assert(after[n].0@ == key@);
        assert(after[n].1.text() == text);
        assert(out.target() =~= endpoint.target() + query_item(n == 0, key@, text));
    }
    out
}

/// Joining the first `k` pairs looks at those pairs only.
proof fn lemma_joined_pairs_prefix(a: Seq<(String, Param)>, b: Seq<(String, Param)>, k: int)
    requires
        0 <= k <= a.len() <= b.len(),
        forall|i: int| 0 <= i < a.len() ==> a[i] == b[i],
    ensures
        joined_pairs(a, k) == joined_pairs(b, k),
    decreases k,
{
    if k > 0 {
        lemma_joined_pairs_prefix(a, b, k - 1);
    }
}

/// The endpoint with a form body of one field.
pub fn with_form_field(endpoint: Endpoint, key: &str, value: Param) -> (out: Endpoint)
    requires
        endpoint.wf(),
        is_plain(key@),
    ensures
        out.wf(),
        out.method == endpoint.method,
        out.target() == endpoint.target(),
        out.body.text() == Some(form_field(key@, value.text())),
        out.body.content_type() == Some("application/x-www-form-urlencoded"@),
{
    let mut out = endpoint;
    let ghost text = value.text();
    let mut fields: Params = Vec::new();
    fields.push((String::from_str(key), value));
    proof {
        lemma_escaped_plain(key@);
        reveal_with_fuel(joined_pairs, 2);
        assert(form_text(fields@) =~= form_field(key@, text));
    }
    out.body = Body::Form(fields);
    out
}

/// The endpoint with a JSON body of one member.
pub fn with_json_member(endpoint: Endpoint, key: &str, value: Param) -> (out: Endpoint)
    requires
        endpoint.wf(),
    ensures
        out.wf(),
        out.method == endpoint.method,
        out.target() == endpoint.target(),
        out.body.text() == Some(json_member(key@, json_param_text(value))),
        out.body.content_type() == Some("application/json"@),
{
    let mut out = endpoint;
    let ghost value_json = json_param_text(value);
    let mut members: Params = Vec::new();
    members.push((String::from_str(key), value));
    proof {
        reveal_with_fuel(joined_members, 2);
        assert(json_object_text(members@) =~= json_member(key@, value_json));
    }
    out.body = Body::Json(members);
    out
}

} // verus!
