//! The file endpoints.

pub mod models;

use vstd::prelude::*;
use vstd::string::*;
use crate::encoding::{is_encoded_char, is_plain, lemma_char_range};
use crate::mod_files::models::ModFileCategory;
use crate::request::{bare_request, build, ClientConfig, Method, Param, Request};
use crate::routes::{
    file_endpoint, file_route, has_no_query_mark, lemma_routes_have_no_query_mark, mod_endpoint,
    mod_route, query_item, with_query,
};

verus! {

/// The calls about the files of a mod. Each method puts one request together.
#[derive(Clone, Debug, PartialEq, Eq)]
pub struct ModFiles {
    pub config: ClientConfig,
}

proof fn lemma_keys_are_plain()
    ensures
        is_plain("category"@),
        is_plain("key"@),
        is_plain("expires"@),
{
    reveal_strlit("category");
    reveal_strlit("key");
    reveal_strlit("expires");
    assert forall|i: int| 0 <= i < "category"@.len() implies is_encoded_char(
        #[trigger] "category"@[i],
    ) && "category"@[i] != '%' by {
        lemma_char_range("category"@[i]);
    }
    assert forall|i: int| 0 <= i < "key"@.len() implies is_encoded_char(#[trigger] "key"@[i])
        && "key"@[i] != '%' by {
        lemma_char_range("key"@[i]);
    }
    assert forall|i: int| 0 <= i < "expires"@.len() implies is_encoded_char(
        #[trigger] "expires"@[i],
    ) && "expires"@[i] != '%' by {
        lemma_char_range("expires"@[i]);
    }
}

/// Without a category the list of files is asked for at a path that holds no
/// `?`: the parameter is left out, not sent empty.
pub proof fn lemma_no_category_no_query(game_name: Seq<char>, mod_id: u32)
    ensures
        has_no_query_mark(mod_route(game_name, mod_id, "/files.json"@)),
{
    reveal_strlit("/files.json");
    lemma_routes_have_no_query_mark(game_name, mod_id, 0, "/files.json"@);
}

impl ModFiles {
    /// The facade for a client with this configuration.
    pub fn new(config: &ClientConfig) -> (files: ModFiles)
        ensures
            files.config == *config,
    {
        ModFiles { config: config.clone() }
    }

    /// `GET /v1/games/{game}/mods/{mod_id}/files.json`: the files of a mod.
    /// With a category the list is narrowed by `?category=..`; without one
    /// the URL has no query string at all.
    pub fn list_mod_files_by_mod_id(
        &self,
        game_name: &str,
        mod_id: u32,
        category: Option<ModFileCategory>,
    ) -> (request: Request)
        ensures
            request@ == bare_request(
                self.config,
                Method::Get,
                mod_route(game_name@, mod_id, "/files.json"@) + match category {
                    Some(wanted) => query_item(true, "category"@, wanted.word()),
                    None => Seq::empty(),
                },
            ),
    {
        let endpoint = mod_endpoint(Method::Get, game_name, mod_id, "/files.json");
        match category {
            Some(wanted) => {
                proof {
                    lemma_keys_are_plain();
                }
                let endpoint = with_query(endpoint, "category", Param::Text(wanted.to_string()));
                build(&self.config, &endpoint)
            },
            None => {
                assert(endpoint.target() + Seq::<char>::empty() =~= endpoint.target());
                build(&self.config, &endpoint)
            },
        }
    }

    /// `GET /v1/games/{game}/mods/{mod_id}/files/{file_id}.json`: the details
    /// of a file.
    pub fn view_mod_file_by_id(&self, game_name: &str, mod_id: u32, file_id: u32) -> (request:
        Request)
        ensures
            request@ == bare_request(
                self.config,
                Method::Get,
                file_route(game_name@, mod_id, file_id, ".json"@),
            ),
    {
        let endpoint = file_endpoint(Method::Get, game_name, mod_id, file_id, ".json");
        build(&self.config, &endpoint)
    }

    /// `GET /v1/games/{game}/mods/{mod_id}/files/{file_id}/download_link.json`:
    /// the download links of a file, for a premium account.
    pub fn get_download_link_by_file_id_premium(
        &self,
        game_name: &str,
        mod_id: u32,
        file_id: u32,
    ) -> (request: Request)
        ensures
            request@ == bare_request(
                self.config,
                Method::Get,
                file_route(game_name@, mod_id, file_id, "/download_link.json"@),
            ),
    {
        let endpoint = file_endpoint(Method::Get, game_name, mod_id, file_id, "/download_link.json");
        build(&self.config, &endpoint)
    }

    /// The same call for an account that is not premium: the signed `key` and
    /// `expires` that the site handed out go into the query string as they
    /// are, percent-encoded.
    pub fn get_download_link_by_file_id(
        &self,
        game_name: &str,
        mod_id: u32,
        file_id: u32,
        key: String,
        expires: String,
    ) -> (request: Request)
        ensures
            request@ == bare_request(
                self.config,
                Method::Get,
                file_route(game_name@, mod_id, file_id, "/download_link.json"@) + query_item(
                    true,
                    "key"@,
                    key@,
                ) + query_item(false, "expires"@, expires@),
            ),
    {
        let endpoint = file_endpoint(Method::Get, game_name, mod_id, file_id, "/download_link.json");
        proof {
            lemma_keys_are_plain();
        }
        let endpoint = with_query(endpoint, "key", Param::Text(key));
        let endpoint = with_query(endpoint, "expires", Param::Text(expires));
        build(&self.config, &endpoint)
    }
}

} // verus!
