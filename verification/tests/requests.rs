use rusty_nexus::mod_files::models::ModFileCategory;
use rusty_nexus::mods::models::Period;
use rusty_nexus::request::{
    build, is_valid_api_key, try_build, Body, ClientConfig, Endpoint, Method, Param, Request,
};
use rusty_nexus::NexusApi;

const KEY: &str = "secret-key";
const BASE: &str = "https://api.nexusmods.com";

fn fixed_headers() -> Vec<(String, String)> {
    vec![
        ("apikey".to_string(), KEY.to_string()),
        ("user-agent".to_string(), "RUSTY_NEXUS/1.0".to_string()),
    ]
}

fn with_media(media: &str) -> Vec<(String, String)> {
    let mut headers = fixed_headers();
    headers.push(("content-type".to_string(), media.to_string()));
    headers
}

fn get(path: &str) -> Request {
    Request {
        method: Method::Get,
        url: format!("{BASE}{path}"),
        headers: fixed_headers(),
        body: None,
    }
}

#[test]
fn test_list_mod_files_by_mod_id() {
    let api = NexusApi::new(KEY);
    let no_param = api.mod_files.list_mod_files_by_mod_id("valheim", 387, None);
    let with_param =
        api.mod_files.list_mod_files_by_mod_id("valheim", 387, Some(ModFileCategory::Main));
    assert_eq!(no_param, get("/v1/games/valheim/mods/387/files.json"));
    assert_eq!(with_param, get("/v1/games/valheim/mods/387/files.json?category=main"));
    assert_ne!(no_param.url, with_param.url);
    assert!(!no_param.url.contains('?'));
    assert!(!no_param.url.contains("category"));
}

#[test]
fn test_list_mod_files_every_category() {
    let api = NexusApi::new(KEY);
    let cases = [
        (ModFileCategory::Main, "main"),
        (ModFileCategory::Update, "update"),
        (ModFileCategory::Optional, "optional"),
        (ModFileCategory::OldVersion, "old_version"),
        (ModFileCategory::Miscellaneous, "miscellaneous"),
    ];
    for (category, word) in cases {
        assert_eq!(category.as_str(), word);
        assert_eq!(category.to_string(), word);
        let request = api.mod_files.list_mod_files_by_mod_id("valheim", 1, Some(category));
        assert_eq!(request.url, format!("{BASE}/v1/games/valheim/mods/1/files.json?category={word}"));
    }
}

#[test]
fn test_view_mod_file_by_id() {
    let api = NexusApi::new(KEY);
    let request = api.mod_files.view_mod_file_by_id("valheim", 387, 8979);
    assert_eq!(request, get("/v1/games/valheim/mods/387/files/8979.json"));
}

#[test]
fn test_get_download_link_by_file_id_premium() {
    let api = NexusApi::new(KEY);
    let request = api.mod_files.get_download_link_by_file_id_premium("valheim", 387, 8979);
    assert_eq!(request, get("/v1/games/valheim/mods/387/files/8979/download_link.json"));
}

#[test]
fn test_get_download_link_by_file_id() {
    let api = NexusApi::new(KEY);
    let request = api.mod_files.get_download_link_by_file_id(
        "valheim",
        387,
        8979,
        "a b/c+d".to_string(),
        "1700000000".to_string(),
    );
    assert_eq!(
        request,
        get("/v1/games/valheim/mods/387/files/8979/download_link.json?key=a%20b%2Fc%2Bd&expires=1700000000")
    );
}

#[test]
fn test_get_updated_mods_by_game() {
    let api = NexusApi::new(KEY);
    let request = api.mods.get_updated_mods_by_game(Period::Week, "valheim");
    assert_eq!(request, get("/v1/games/valheim/mods/updated.json?period=1w"));
    let day = api.mods.get_updated_mods_by_game(Period::Day, "valheim");
    assert_eq!(day.url, format!("{BASE}/v1/games/valheim/mods/updated.json?period=1d"));
    let month = api.mods.get_updated_mods_by_game(Period::Month, "valheim");
    assert_eq!(month.url, format!("{BASE}/v1/games/valheim/mods/updated.json?period=1m"));
    assert_eq!(Period::Week.to_string(), "1w");
    assert_eq!(Period::Day.as_str(), "1d");
}

#[test]
fn test_get_changelog_by_mod_id() {
    let api = NexusApi::new(KEY);
    let request = api.mods.get_changelog_by_mod_id("valheim", 387);
    assert_eq!(request, get("/v1/games/valheim/mods/387/changelogs.json"));
}

#[test]
fn test_get_last_10_mods_by_name() {
    let api = NexusApi::new(KEY);
    let request = api.mods.get_lastest_10_mods_by_game("valheim");
    assert_eq!(request, get("/v1/games/valheim/mods/latest_added.json"));
}

#[test]
fn test_get_latest_10_updated_mods_by_game() {
    let api = NexusApi::new(KEY);
    let request = api.mods.get_latest_10_updated_mods_by_game("valheim");
    assert_eq!(request, get("/v1/games/valheim/mods/latest_updated.json"));
}

#[test]
fn test_get_top_10_trending_mods_by_game() {
    let api = NexusApi::new(KEY);
    let request = api.mods.get_top_10_trending_mods_by_game("valheim");
    assert_eq!(request, get("/v1/games/valheim/mods/trending.json"));
}

#[test]
fn test_get_mod_info_for_game() {
    let api = NexusApi::new(KEY);
    let request = api.mods.get_mod_info_for_game(387, "valheim");
    assert_eq!(request.method, Method::Get);
    assert_eq!(request.url, "https://api.nexusmods.com/v1/games/valheim/mods/387.json");
    assert_eq!(request.headers[0], ("apikey".to_string(), KEY.to_string()));
    assert_eq!(request.body, None);
    assert_eq!(request, get("/v1/games/valheim/mods/387.json"));
}

#[test]
fn test_endorse_mod_by_mod_id() {
    let api = NexusApi::new(KEY);
    let request = api.mods.endorse_mod_by_mod_id("valheim", 387, "0");
    assert_eq!(
        request,
        Request {
            method: Method::Post,
            url: format!("{BASE}/v1/games/valheim/mods/387/endorse.json"),
            headers: with_media("application/json"),
            body: Some("{\"version\":\"0\"}".to_string()),
        }
    );
}

#[test]
fn test_endorse_escapes_the_version_as_json() {
    let api = NexusApi::new(KEY);
    let request = api.mods.endorse_mod_by_mod_id("valheim", 387, "1.0 \"beta\"\n\\");
    assert_eq!(request.body, Some("{\"version\":\"1.0 \\\"beta\\\"\\n\\\\\"}".to_string()));
}

#[test]
fn test_remove_mod_endorsement_by_mod_id() {
    let api = NexusApi::new(KEY);
    let request = api.mods.remove_mod_endorsement_by_mod_id("valheim", 387, "0");
    assert_eq!(
        request,
        Request {
            method: Method::Post,
            url: format!("{BASE}/v1/games/valheim/mods/387/abstain.json"),
            headers: with_media("application/json"),
            body: Some("{\"version\":\"0\"}".to_string()),
        }
    );
}

#[test]
fn test_validate() {
    let api = NexusApi::new(KEY);
    let request = api.nexus.validate();
    assert_eq!(request, get("/v1/users/validate.json"));
    assert_eq!(api.nexus.tracked_mods(), get("/v1/user/tracked_mods.json"));
}

#[test]
fn test_track_mods() {
    let api = NexusApi::new(KEY);
    let track = api.nexus.track_mod("skyrimspecialedition", 1);
    assert_eq!(
        track,
        Request {
            method: Method::Post,
            url: format!("{BASE}/v1/user/tracked_mods.json?domain_name=skyrimspecialedition"),
            headers: with_media("application/x-www-form-urlencoded"),
            body: Some("mod_id=1".to_string()),
        }
    );
    let untrack = api.nexus.untrack_mod("skyrimspecialedition", 1);
    assert_eq!(
        untrack,
        Request {
            method: Method::Delete,
            url: format!("{BASE}/v1/user/tracked_mods.json?domain_name=skyrimspecialedition"),
            headers: with_media("application/json"),
            body: Some("{\"mod_id\":1}".to_string()),
        }
    );
}

#[test]
fn test_path_parameters_are_percent_encoded() {
    let api = NexusApi::new(KEY);
    let request = api.mods.get_mod_info_for_game(4294967295, "a/b?c#d e%f&g=h");
    assert_eq!(
        request.url,
        format!("{BASE}/v1/games/a%2Fb%3Fc%23d%20e%25f%26g%3Dh/mods/4294967295.json")
    );
    let utf8 = api.mods.get_mod_info_for_game(0, "z\u{e9}\u{20ac}");
    assert_eq!(utf8.url, format!("{BASE}/v1/games/z%C3%A9%E2%82%AC/mods/0.json"));
}

#[test]
fn test_every_request_carries_both_fixed_headers_once() {
    let api = NexusApi::new(KEY);
    let requests = vec![
        api.nexus.validate(),
        api.nexus.track_mod("valheim", 7),
        api.nexus.untrack_mod("valheim", 7),
        api.mods.endorse_mod_by_mod_id("valheim", 7, "1"),
        api.mod_files.view_mod_file_by_id("valheim", 7, 8),
    ];
    for request in requests {
        let keys = request.headers.iter().filter(|(name, _)| name == "apikey").count();
        let agents = request.headers.iter().filter(|(name, _)| name == "user-agent").count();
        assert_eq!(keys, 1);
        assert_eq!(agents, 1);
        assert!(request.headers.contains(&("apikey".to_string(), KEY.to_string())));
        assert!(request
            .headers
            .contains(&("user-agent".to_string(), "RUSTY_NEXUS/1.0".to_string())));
    }
}

#[test]
fn test_api_key_validity() {
    assert!(is_valid_api_key("abc DEF 123 ~!"));
    assert!(is_valid_api_key("tab\tinside"));
    assert!(is_valid_api_key(""));
    assert!(is_valid_api_key("caf\u{e9}"));
    assert!(!is_valid_api_key("line\nbreak"));
    assert!(!is_valid_api_key("del\u{7f}"));
    assert!(!is_valid_api_key("nul\0"));
    assert!(NexusApi::try_new("good").is_some());
    assert!(NexusApi::try_new("bad\r\n").is_none());
    let api = NexusApi::try_new("good").unwrap();
    assert_eq!(api.mods.config, ClientConfig::new("good"));
    assert_eq!(api.mod_files.config, api.nexus.config);
    assert_eq!(api.nexus.config.base_url, BASE);
    assert_eq!(api.nexus.config.user_agent, "RUSTY_NEXUS/1.0");
}

#[test]
fn test_build_a_described_endpoint() {
    let config = ClientConfig {
        api_key: "k".to_string(),
        base_url: "http://localhost:8080".to_string(),
        user_agent: "test/0".to_string(),
    };
    let endpoint = Endpoint {
        method: Method::Post,
        pieces: vec!["/a/".to_string(), "/b/".to_string(), "".to_string()],
        path_params: vec![Param::Text("x y".to_string()), Param::Number(12)],
        query: vec![
            ("q".to_string(), Param::Text("1&2".to_string())),
            ("n".to_string(), Param::Number(0)),
        ],
        body: Body::Form(vec![
            ("a b".to_string(), Param::Text("c=d".to_string())),
            ("e".to_string(), Param::Number(18446744073709551615)),
        ]),
    };
    assert!(endpoint.is_wf());
    let request = build(&config, &endpoint);
    assert_eq!(request.method, Method::Post);
    assert_eq!(request.url, "http://localhost:8080/a/x%20y/b/12?q=1%262&n=0");
    assert_eq!(request.body, Some("a%20b=c%3Dd&e=18446744073709551615".to_string()));
    assert_eq!(
        request.headers,
        vec![
            ("apikey".to_string(), "k".to_string()),
            ("user-agent".to_string(), "test/0".to_string()),
            ("content-type".to_string(), "application/x-www-form-urlencoded".to_string()),
        ]
    );
}

#[test]
fn test_build_json_and_empty_bodies() {
    let config = ClientConfig::new(KEY);
    let mut endpoint = Endpoint {
        method: Method::Delete,
        pieces: vec!["/v1/x.json".to_string()],
        path_params: vec![],
        query: vec![],
        body: Body::Json(vec![
            ("name".to_string(), Param::Text("a\"b".to_string())),
            ("count".to_string(), Param::Number(3)),
        ]),
    };
    let request = build(&config, &endpoint);
    assert_eq!(request.url, format!("{BASE}/v1/x.json"));
    assert_eq!(request.body, Some("{\"name\":\"a\\\"b\",\"count\":3}".to_string()));
    assert_eq!(request.headers, with_media("application/json"));
    endpoint.body = Body::Json(vec![]);
    assert_eq!(build(&config, &endpoint).body, Some("{}".to_string()));
    endpoint.body = Body::Form(vec![]);
    assert_eq!(build(&config, &endpoint).body, Some(String::new()));
    endpoint.body = Body::Empty;
    let bare = build(&config, &endpoint);
    assert_eq!(bare.body, None);
    assert_eq!(bare.headers, fixed_headers());
    endpoint.pieces.push("extra".to_string());
    assert!(!endpoint.is_wf());
}

#[test]
fn test_try_build_checks_the_template() {
    let config = ClientConfig::new(KEY);
    let mut endpoint = Endpoint {
        method: Method::Get,
        pieces: vec!["/a/".to_string(), "/b".to_string()],
        path_params: vec![Param::Number(5)],
        query: vec![],
        body: Body::Empty,
    };
    let request = try_build(&config, &endpoint).unwrap();
    assert_eq!(request, get("/a/5/b"));
    endpoint.path_params.push(Param::Number(6));
    assert_eq!(try_build(&config, &endpoint), None);
    endpoint.pieces.clear();
    endpoint.path_params.clear();
    assert_eq!(try_build(&config, &endpoint), None);
}
