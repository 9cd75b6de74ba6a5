//! The mod endpoints.

pub mod models;

use vstd::prelude::*;
use vstd::string::*;
use crate::encoding::{is_encoded_char, is_plain, lemma_char_range};
use crate::mods::models::Period;
use crate::request::{
    bare_request, body_request, build, json_string_literal, ClientConfig, Method, Param, Request,
};
use crate::routes::{
    game_endpoint, game_route, json_member, mod_endpoint, mod_route, query_item, with_json_member,
    with_query,
};

verus! {

/// The calls about mods. Each method puts one request together.
#[derive(Clone, Debug, PartialEq, Eq)]
pub struct Mods {
    pub config: ClientConfig,
}

proof fn lemma_period_key_is_plain()
    ensures
        is_plain("period"@),
{
    reveal_strlit("period");
    let key = "period"@;
    assert forall|i: int| 0 <= i < key.len() implies is_encoded_char(#[trigger] key[i]) && key[i]
        != '%' by {
        lemma_char_range(key[i]);
    }
}

impl Mods {
    /// The facade for a client with this configuration.
    pub fn new(config: &ClientConfig) -> (mods: Mods)
        ensures
            mods.config == *config,
    {
        Mods { config: config.clone() }
    }

    /// `GET /v1/games/{game}/mods/updated.json?period=..`: the mods of a game
    /// that were updated within the period.
    pub fn get_updated_mods_by_game(&self, period: Period, game_name: &str) -> (request: Request)
        ensures
            request@ == bare_request(
                self.config,
                Method::Get,
                game_route(game_name@, "/mods/updated.json"@) + query_item(
                    true,
                    "period"@,
                    period.word(),
                ),
            ),
    {
        let endpoint = game_endpoint(Method::Get, game_name, "/mods/updated.json");
        proof {
            lemma_period_key_is_plain();
        }
        let endpoint = with_query(endpoint, "period", Param::Text(period.to_string()));
        build(&self.config, &endpoint)
    }

    /// `GET /v1/games/{game}/mods/{mod_id}/changelogs.json`: the changes of a
    /// mod, version by version.
    pub fn get_changelog_by_mod_id(&self, game_name: &str, mod_id: u32) -> (request: Request)
        ensures
            request@ == bare_request(
                self.config,
                Method::Get,
                mod_route(game_name@, mod_id, "/changelogs.json"@),
            ),
    {
        let endpoint = mod_endpoint(Method::Get, game_name, mod_id, "/changelogs.json");
        build(&self.config, &endpoint)
    }

    /// `GET /v1/games/{game}/mods/latest_added.json`: the ten mods added last.
    pub fn get_lastest_10_mods_by_game(&self, game_name: &str) -> (request: Request)
        ensures
            request@ == bare_request(
                self.config,
                Method::Get,
                game_route(game_name@, "/mods/latest_added.json"@),
            ),
    {
        let endpoint = game_endpoint(Method::Get, game_name, "/mods/latest_added.json");
        build(&self.config, &endpoint)
    }

    /// `GET /v1/games/{game}/mods/latest_updated.json`: the ten mods updated
    /// last.
    pub fn get_latest_10_updated_mods_by_game(&self, game_name: &str) -> (request: Request)
        ensures
            request@ == bare_request(
                self.config,
                Method::Get,
                game_route(game_name@, "/mods/latest_updated.json"@),
            ),
    {
        let endpoint = game_endpoint(Method::Get, game_name, "/mods/latest_updated.json");
        build(&self.config, &endpoint)
    }

    /// `GET /v1/games/{game}/mods/trending.json`: the ten mods trending now.
    pub fn get_top_10_trending_mods_by_game(&self, game_name: &str) -> (request: Request)
        ensures
            request@ == bare_request(
                self.config,
                Method::Get,
                game_route(game_name@, "/mods/trending.json"@),
            ),
    {
        let endpoint = game_endpoint(Method::Get, game_name, "/mods/trending.json");
        build(&self.config, &endpoint)
    }

    /// `GET /v1/games/{game}/mods/{mod_id}.json`: the details of a mod.
    pub fn get_mod_info_for_game(&self, mod_id: u32, game_name: &str) -> (request: Request)
        ensures
            request@ == bare_request(
                self.config,
                Method::Get,
                mod_route(game_name@, mod_id, ".json"@),
            ),
    {
        let endpoint = mod_endpoint(Method::Get, game_name, mod_id, ".json");
        build(&self.config, &endpoint)
    }

    /// `POST /v1/games/{game}/mods/{mod_id}/endorse.json` with the version as
    /// a JSON body: endorses a mod.
    pub fn endorse_mod_by_mod_id(&self, game_name: &str, mod_id: u32, mod_version: &str) -> (request:
        Request)
        ensures
            request@ == body_request(
                self.config,
                Method::Post,
                mod_route(game_name@, mod_id, "/endorse.json"@),
                "application/json"@,
                json_member("version"@, json_string_literal(mod_version@)),
            ),
    {
        let endpoint = mod_endpoint(Method::Post, game_name, mod_id, "/endorse.json");
        let endpoint = with_json_member(
            endpoint,
            "version",
            Param::Text(String::from_str(mod_version)),
        );
        build(&self.config, &endpoint)
    }

    /// `POST /v1/games/{game}/mods/{mod_id}/abstain.json` with the version as
    /// a JSON body: withdraws the endorsement of a mod.
    pub fn remove_mod_endorsement_by_mod_id(
        &self,
        game_name: &str,
        mod_id: u32,
        mod_version: &str,
    ) -> (request: Request)
        ensures
            request@ == body_request(
                self.config,
                Method::Post,
                mod_route(game_name@, mod_id, "/abstain.json"@),
                "application/json"@,
                json_member("version"@, json_string_literal(mod_version@)),
            ),
    {
        let endpoint = mod_endpoint(Method::Post, game_name, mod_id, "/abstain.json");
        let endpoint = with_json_member(
            endpoint,
            "version",
            Param::Text(String::from_str(mod_version)),
        );
        build(&self.config, &endpoint)
    }
}

} // verus!
