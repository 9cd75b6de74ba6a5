//! The account and tracking endpoints.

pub mod models;

use vstd::prelude::*;
use vstd::string::*;
use crate::decimal::{decimal, lemma_decimal_is_plain};
use crate::encoding::{is_encoded_char, is_plain, lemma_char_range};
use crate::request::{bare_request, body_request, build, ClientConfig, Method, Param, Request};
use crate::routes::{
    fixed_endpoint, form_field, json_member, query_item, with_form_field, with_json_member,
    with_query,
};

verus! {

/// The calls about the account behind the key. Each method puts one request
/// together.
#[derive(Clone, Debug, PartialEq, Eq)]
pub struct Nexus {
    pub config: ClientConfig,
}

proof fn lemma_keys_are_plain()
    ensures
        is_plain("domain_name"@),
        is_plain("mod_id"@),
{
    reveal_strlit("domain_name");
    reveal_strlit("mod_id");
    assert forall|i: int| 0 <= i < "domain_name"@.len() implies is_encoded_char(
        #[trigger] "domain_name"@[i],
    ) && "domain_name"@[i] != '%' by {
        lemma_char_range("domain_name"@[i]);
    }
    assert forall|i: int| 0 <= i < "mod_id"@.len() implies is_encoded_char(
        #[trigger] "mod_id"@[i],
    ) && "mod_id"@[i] != '%' by {
        lemma_char_range("mod_id"@[i]);
    }
}

impl Nexus {
    /// The facade for a client with this configuration.
    pub fn new(config: &ClientConfig) -> (nexus: Nexus)
        ensures
            nexus.config == *config,
    {
        Nexus { config: config.clone() }
    }

    /// `GET /v1/users/validate.json`: the profile behind the key.
    pub fn validate(&self) -> (request: Request)
        ensures
            request@ == bare_request(self.config, Method::Get, "/v1/users/validate.json"@),
    {
        let endpoint = fixed_endpoint(Method::Get, "/v1/users/validate.json");
        build(&self.config, &endpoint)
    }

    /// `GET /v1/user/tracked_mods.json`: the mods the account tracks.
    pub fn tracked_mods(&self) -> (request: Request)
        ensures
            request@ == bare_request(self.config, Method::Get, "/v1/user/tracked_mods.json"@),
    {
        let endpoint = fixed_endpoint(Method::Get, "/v1/user/tracked_mods.json");
        build(&self.config, &endpoint)
    }

    /// `POST /v1/user/tracked_mods.json?domain_name=..` with the form body
    /// `mod_id=..`: starts tracking a mod.
    pub fn track_mod(&self, game: &str, mod_id: u32) -> (request: Request)
        ensures
            request@ == body_request(
                self.config,
                Method::Post,
                "/v1/user/tracked_mods.json"@ + query_item(true, "domain_name"@, game@),
                "application/x-www-form-urlencoded"@,
                "mod_id"@ + seq!['='] + decimal(mod_id as nat),
            ),
    {
        let endpoint = fixed_endpoint(Method::Post, "/v1/user/tracked_mods.json");
        proof {
            lemma_keys_are_plain();
            lemma_decimal_is_plain(mod_id as nat);
        }
        let endpoint = with_query(endpoint, "domain_name", Param::Text(String::from_str(game)));
        let endpoint = with_form_field(endpoint, "mod_id", Param::Number(mod_id as u64));
        build(&self.config, &endpoint)
    }

    /// `DELETE /v1/user/tracked_mods.json?domain_name=..` with the JSON body
    /// `{"mod_id":..}`: stops tracking a mod.
    pub fn untrack_mod(&self, game: &str, mod_id: u32) -> (request: Request)
        ensures
            request@ == body_request(
                self.config,
                Method::Delete,
                "/v1/user/tracked_mods.json"@ + query_item(true, "domain_name"@, game@),
                "application/json"@,
                json_member("mod_id"@, decimal(mod_id as nat)),
            ),
    {
        let endpoint = fixed_endpoint(Method::Delete, "/v1/user/tracked_mods.json");
        proof {
            lemma_keys_are_plain();
        }
        let endpoint = with_query(endpoint, "domain_name", Param::Text(String::from_str(game)));
        let endpoint = with_json_member(endpoint, "mod_id", Param::Number(mod_id as u64));
        build(&self.config, &endpoint)
    }
}

} // verus!
