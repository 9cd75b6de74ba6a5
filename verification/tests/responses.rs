use rusty_nexus::json::{parse, Json};
use rusty_nexus::mods::models::{Changelog, ModEndorsementResult};
use rusty_nexus::nexus::models::{
    Message, TrackedModsCommon, TrackedModsGetResponse, ValidateResponse,
};
use rusty_nexus::response::{
    conclude, conclude_document, decode, decode_document, decode_response, excerpt, interpret,
    status_is_success, ApiError, Payload, RawResponse, EXCERPT_LIMIT,
};
use rusty_nexus::NexusApiResult;

const PROFILE: &str = "{\"user_id\":1234567,\"key\":\"abc\",\"name\":\"dovah\",\
    \"email\":\"d@example.org\",\"profile_url\":\"https://example.org/u/1\",\
    \"is_premium\":false,\"is_supporter\":true}";

fn text(s: &str) -> Json {
    Json::Text(s.to_string())
}

fn number(s: &str) -> Json {
    Json::Number(s.to_string())
}

fn object(members: Vec<(&str, Json)>) -> Json {
    Json::Object(members.into_iter().map(|(k, v)| (k.to_string(), v)).collect())
}

fn shape_failure(body: &str) -> ApiError {
    ApiError::Decode {
        message: "body does not have the expected shape".to_string(),
        excerpt: body.to_string(),
    }
}

#[test]
fn test_decode_profile() {
    let result: NexusApiResult<ValidateResponse> = decode(200, PROFILE);
    assert_eq!(
        result,
        Ok(ValidateResponse {
            user_id: 1234567,
            key: "abc".to_string(),
            name: "dovah".to_string(),
            email: "d@example.org".to_string(),
            profile_url: "https://example.org/u/1".to_string(),
            is_premium: false,
            is_supporter: true,
        })
    );
}

#[test]
fn test_decode_ignores_unknown_members() {
    let body = "{\"extra\":[1,2,{\"deep\":null}],\"message\":\"ok\",\"more\":1.5}";
    assert_eq!(decode::<Message>(201, body), Ok(Message { message: "ok".to_string() }));
}

#[test]
fn test_decode_missing_member_is_a_decode_failure() {
    let members = [
        ("user_id", "1"),
        ("key", "\"k\""),
        ("name", "\"n\""),
        ("email", "\"e\""),
        ("profile_url", "\"p\""),
        ("is_premium", "true"),
        ("is_supporter", "false"),
    ];
    for skip in 0..members.len() {
        let kept: Vec<String> = members
            .iter()
            .enumerate()
            .filter(|(i, _)| *i != skip)
            .map(|(_, (k, v))| format!("\"{k}\":{v}"))
            .collect();
        let body = format!("{{{}}}", kept.join(","));
        assert_eq!(decode::<ValidateResponse>(200, &body), Err(shape_failure(&body)));
    }
    let all: Vec<String> = members.iter().map(|(k, v)| format!("\"{k}\":{v}")).collect();
    let body = format!("{{{}}}", all.join(","));
    assert!(decode::<ValidateResponse>(200, &body).is_ok());
}

#[test]
fn test_decode_wrong_member_type_is_a_decode_failure() {
    for body in [
        "{\"message\":1}",
        "{\"message\":null}",
        "{\"message\":[\"ok\"]}",
        "{\"Message\":\"ok\"}",
        "[\"message\"]",
        "\"message\"",
        "null",
    ] {
        assert_eq!(decode::<Message>(200, body), Err(shape_failure(body)));
    }
}

#[test]
fn test_decode_numbers_strictly() {
    let ok = "{\"mod_id\":4294967295,\"domain_name\":\"valheim\"}";
    assert_eq!(
        decode::<TrackedModsCommon>(200, ok),
        Ok(TrackedModsCommon { mod_id: 4294967295, domain_name: "valheim".to_string() })
    );
    for value in ["4294967296", "-1", "1.0", "1e2", "\"1\"", "true", "18446744073709551616"] {
        let body = format!("{{\"mod_id\":{value},\"domain_name\":\"valheim\"}}");
        assert_eq!(decode::<TrackedModsCommon>(200, &body), Err(shape_failure(&body)));
    }
    let big = format!(
        "{{\"user_id\":18446744073709551615,\"key\":\"\",\"name\":\"\",\"email\":\"\",\
         \"profile_url\":\"\",\"is_premium\":true,\"is_supporter\":true}}"
    );
    assert_eq!(decode::<ValidateResponse>(200, &big).map(|p| p.user_id), Ok(u64::MAX));
}

#[test]
fn test_decode_tracked_mods_list() {
    let body = "[{\"mod_id\":1,\"domain_name\":\"skyrimspecialedition\"},\
                {\"domain_name\":\"valheim\",\"mod_id\":387}]";
    let list: TrackedModsGetResponse = decode(200, body).unwrap();
    assert_eq!(list.len(), 2);
    assert!(list.contains(&TrackedModsCommon {
        domain_name: "skyrimspecialedition".into(),
        mod_id: 1
    }));
    assert_eq!(list[1], TrackedModsCommon { mod_id: 387, domain_name: "valheim".to_string() });
    let after: TrackedModsGetResponse =
        decode(200, "[{\"mod_id\":387,\"domain_name\":\"valheim\"}]").unwrap();
    assert!(!after.contains(&TrackedModsCommon {
        domain_name: "skyrimspecialedition".into(),
        mod_id: 1
    }));
    assert_eq!(decode::<TrackedModsGetResponse>(200, "[]"), Ok(vec![]));
    let broken = "[{\"mod_id\":1,\"domain_name\":\"a\"},{\"mod_id\":2}]";
    assert_eq!(decode::<TrackedModsGetResponse>(200, broken), Err(shape_failure(broken)));
    assert_eq!(decode::<TrackedModsGetResponse>(200, "{}"), Err(shape_failure("{}")));
}

#[test]
fn test_decode_failure_statuses_keep_the_body() {
    for status in [400u16, 401, 403, 404, 429, 499, 500, 503, 599] {
        for body in [PROFILE, "{\"message\":\"Not Found\"}", "<html>oops</html>", ""] {
            let expected = ApiError::Http { status, body: body.to_string() };
            assert_eq!(decode::<ValidateResponse>(status, body), Err(expected.clone()));
            assert_eq!(decode::<Message>(status, body), Err(expected.clone()));
            assert_eq!(decode_document(status, body), Err(expected));
        }
    }
}

#[test]
fn test_only_2xx_is_success() {
    for status in [0u16, 100, 199, 300, 304, 399, 600, 65535] {
        assert!(!status_is_success(status));
        assert_eq!(
            decode::<Message>(status, "{\"message\":\"ok\"}"),
            Err(ApiError::Http { status, body: "{\"message\":\"ok\"}".to_string() })
        );
    }
    for status in [200u16, 201, 204, 299] {
        assert!(status_is_success(status));
        assert_eq!(
            decode::<Message>(status, "{\"message\":\"ok\"}"),
            Ok(Message { message: "ok".to_string() })
        );
    }
}

#[test]
fn test_decode_not_json_is_a_decode_failure() {
    let body = "<html>not json</html>";
    let expected = serde_json::from_str::<serde_json::Value>(body).unwrap_err().to_string();
    assert_eq!(
        decode::<Message>(200, body),
        Err(ApiError::Decode { message: expected.clone(), excerpt: body.to_string() })
    );
    assert_eq!(
        decode_document(200, body),
        Err(ApiError::Decode { message: expected, excerpt: body.to_string() })
    );
    assert!(matches!(decode::<Message>(200, ""), Err(ApiError::Decode { .. })));
}

#[test]
fn test_decode_failure_excerpt_is_bounded() {
    let long: String = "\u{e9}".repeat(EXCERPT_LIMIT + 40);
    match decode::<Message>(200, &long) {
        Err(ApiError::Decode { excerpt, .. }) => {
            assert_eq!(excerpt.chars().count(), EXCERPT_LIMIT);
            assert_eq!(excerpt, "\u{e9}".repeat(EXCERPT_LIMIT));
        }
        other => panic!("unexpected {other:?}"),
    }
    assert_eq!(EXCERPT_LIMIT, 256);
    assert_eq!(excerpt("short"), "short");
    assert_eq!(excerpt(&"a".repeat(256)), "a".repeat(256));
    assert_eq!(excerpt(&"a".repeat(257)), "a".repeat(256));
    assert_eq!(excerpt(""), "");
}

#[test]
fn test_decode_mod_detail_document() {
    let body = "{\"name\":\"ValheimPlus\",\"mod_id\":387,\"domain_name\":\"valheim\",\
                \"endorsement_count\":0,\"available\":true,\"tags\":[\"a\",\"b\"],\
                \"user\":{\"member_id\":5,\"name\":null},\"rating\":-1.5}";
    let expected = object(vec![
        ("available", Json::Bool(true)),
        ("domain_name", text("valheim")),
        ("endorsement_count", number("0")),
        ("mod_id", number("387")),
        ("name", text("ValheimPlus")),
        ("rating", number("-1.5")),
        ("tags", Json::Array(vec![text("a"), text("b")])),
        ("user", object(vec![("member_id", number("5")), ("name", Json::Null)])),
    ]);
    assert_eq!(decode_document(200, body), Ok(expected));
    assert_eq!(
        decode_document(404, "{\"message\":\"Not Found\"}"),
        Err(ApiError::Http { status: 404, body: "{\"message\":\"Not Found\"}".to_string() })
    );
}

#[test]
fn test_decode_endorsement_result() {
    let body = "{\"message\":\"Updated to: Endorsed\",\"status\":\"Endorsed\"}";
    assert_eq!(
        decode::<ModEndorsementResult>(200, body),
        Ok(ModEndorsementResult {
            status: "Endorsed".to_string(),
            message: "Updated to: Endorsed".to_string(),
        })
    );
    let partial = "{\"status\":\"Endorsed\"}";
    assert_eq!(decode::<ModEndorsementResult>(200, partial), Err(shape_failure(partial)));
}

#[test]
fn test_decode_changelog() {
    let body = "{\"0.9\":[\"first\"],\"1.0\":[\"fixed a\",\"added b\"],\"1.1\":[]}";
    let log: Changelog = decode(200, body).unwrap();
    assert_eq!(
        log.versions,
        vec![
            ("0.9".to_string(), vec!["first".to_string()]),
            ("1.0".to_string(), vec!["fixed a".to_string(), "added b".to_string()]),
            ("1.1".to_string(), vec![]),
        ]
    );
    let broken = "{\"1.0\":[\"ok\",1]}";
    assert_eq!(decode::<Changelog>(200, broken), Err(shape_failure(broken)));
    assert_eq!(decode::<Changelog>(200, "[]"), Err(shape_failure("[]")));
    assert_eq!(decode::<Changelog>(200, "{}"), Ok(Changelog { versions: vec![] }));
}

#[test]
fn test_interpret_takes_the_parsed_document() {
    let document = object(vec![("message", text("hi"))]);
    assert_eq!(interpret::<Message>("raw", Ok(document)), Ok(Message { message: "hi".to_string() }));
    assert_eq!(interpret::<Message>("raw", Ok(Json::Null)), Err(shape_failure("raw")));
    assert_eq!(
        interpret::<Message>("raw", Err("expected value".to_string())),
        Err(ApiError::Decode { message: "expected value".to_string(), excerpt: "raw".to_string() })
    );
}

#[test]
fn test_from_json_reads_first_member_of_a_name() {
    let doubled = object(vec![("message", text("first")), ("message", text("second"))]);
    assert_eq!(Message::from_json(&doubled), Some(Message { message: "first".to_string() }));
    assert_eq!(String::from_json(&text("x")), Some("x".to_string()));
    assert_eq!(String::from_json(&number("1")), None);
    assert_eq!(
        Vec::<String>::from_json(&Json::Array(vec![text("a"), text("b")])),
        Some(vec!["a".to_string(), "b".to_string()])
    );
}

#[test]
fn test_json_accessors() {
    let doc = parse("{\"a\":\"x\",\"b\":12,\"c\":true,\"d\":[null],\"e\":-3,\"f\":0.5}").unwrap();
    assert_eq!(doc.get("a"), Some(&text("x")));
    assert_eq!(doc.get("zz"), None);
    assert_eq!(doc.get_text("a"), Some("x".to_string()));
    assert_eq!(doc.get_text("b"), None);
    assert_eq!(doc.get_number("b"), Some(12));
    assert_eq!(doc.get_number("e"), None);
    assert_eq!(doc.get_number("f"), None);
    assert_eq!(doc.get_number("a"), None);
    assert_eq!(doc.get_flag("c"), Some(true));
    assert_eq!(doc.get_flag("a"), None);
    assert_eq!(doc.get("d").and_then(|d| d.as_items()), Some(&vec![Json::Null]));
    assert_eq!(doc.get("e"), Some(&number("-3")));
    assert_eq!(doc.get("f"), Some(&number("0.5")));
    assert_eq!(text("t").as_text(), Some(&"t".to_string()));
    assert_eq!(Json::Bool(false).as_flag(), Some(false));
    assert_eq!(number("7").as_number(), Some(7));
    assert_eq!(Json::Null.get("a"), None);
    assert_eq!(Json::Null.as_items(), None);
    assert!(parse("{").is_err());
    assert_eq!(parse("[1, \"two\", false]"), Ok(Json::Array(vec![number("1"), text("two"), Json::Bool(false)])));
    assert_eq!(parse(" \"\\u00e9\\n\" "), Ok(text("\u{e9}\n")));
}

#[test]
fn test_decode_response_keeps_status_and_headers() {
    let headers = vec![
        ("x-rl-daily-remaining".to_string(), "2499".to_string()),
        ("content-type".to_string(), "application/json".to_string()),
    ];
    let raw = RawResponse {
        status: 201,
        headers: headers.clone(),
        body: "{\"message\":\"tracked\"}".to_string(),
    };
    let typed = decode_response::<Message>(raw).unwrap();
    assert_eq!(typed.status, 201);
    assert_eq!(typed.headers, headers);
    assert_eq!(typed.value, Message { message: "tracked".to_string() });
    let refused = RawResponse {
        status: 403,
        headers,
        body: "{\"message\":\"forbidden\"}".to_string(),
    };
    assert_eq!(
        decode_response::<Message>(refused),
        Err(ApiError::Http { status: 403, body: "{\"message\":\"forbidden\"}".to_string() })
    );
}

#[test]
fn test_conclude_covers_the_three_failures() {
    let reply = |status: u16, body: &str| RawResponse {
        status,
        headers: vec![],
        body: body.to_string(),
    };
    assert_eq!(
        conclude::<Message>(Err("connection refused".to_string())),
        Err(ApiError::Transport { message: "connection refused".to_string() })
    );
    assert_eq!(
        conclude_document(Err("timed out".to_string())),
        Err(ApiError::Transport { message: "timed out".to_string() })
    );
    assert_eq!(
        conclude::<Message>(Ok(reply(500, "boom"))),
        Err(ApiError::Http { status: 500, body: "boom".to_string() })
    );
    assert_eq!(conclude::<Message>(Ok(reply(200, "{}"))), Err(shape_failure("{}")));
    assert_eq!(
        conclude::<Message>(Ok(reply(200, "{\"message\":\"ok\"}"))),
        Ok(Message { message: "ok".to_string() })
    );
    assert_eq!(conclude_document(Ok(reply(200, "[]"))), Ok(Json::Array(vec![])));
    assert_eq!(
        conclude_document(Ok(reply(404, "[]"))),
        Err(ApiError::Http { status: 404, body: "[]".to_string() })
    );
}
