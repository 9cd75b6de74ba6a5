//! A typed client core for the Nexus Mods REST API: how each endpoint call is
//! put together, and how a reply is turned into a typed value or a classified
//! failure. Nothing here touches the network.

pub mod decimal;
pub mod encoding;
pub mod json;
pub mod mod_files;
pub mod mods;
pub mod nexus;
pub mod request;
pub mod response;
pub mod routes;

use vstd::prelude::*;
use vstd::string::*;
use crate::mod_files::ModFiles;
use crate::mods::Mods;
use crate::nexus::Nexus;
use crate::request::{
    is_header_value, is_valid_api_key, ClientConfig, NEXUS_API_BASE_URL, USER_AGENT,
};
use crate::response::ApiError;

verus! {

/// What a call gives: the payload, or why there is none.
pub type NexusApiResult<T> = Result<T, ApiError>;

/// The three groups of calls of one client. All of them share one key, one
/// origin and one signature.
#[derive(Clone, Debug, PartialEq, Eq)]
pub struct NexusApi {
    pub mods: Mods,
    pub mod_files: ModFiles,
    pub nexus: Nexus,
}

impl NexusApi {
    /// Whether `config` is the service's own origin, this client's signature
    /// and the given key.
    pub open spec fn is_default_config(config: ClientConfig, api_key: Seq<char>) -> bool {
        &&& config.api_key@ == api_key
        &&& config.base_url@ == NEXUS_API_BASE_URL@
        &&& config.user_agent@ == USER_AGENT@
    }

    /// Whether all three groups are configured for the service with the given
    /// key.
    pub open spec fn configured_with(self, api_key: Seq<char>) -> bool {
        &&& Self::is_default_config(self.mods.config, api_key)
        &&& Self::is_default_config(self.mod_files.config, api_key)
        &&& Self::is_default_config(self.nexus.config, api_key)
    }

    /// A client for the given key. The key must be fit to be sent as a header
    /// value; [`NexusApi::try_new`] checks that first.
    pub fn new(api_key: &str) -> (api: NexusApi)
        requires
            is_header_value(api_key.spec_bytes()),
        ensures
            api.configured_with(api_key@),
    {
        let config = ClientConfig::new(api_key);
        NexusApi {
            mods: Mods::new(&config),
            mod_files: ModFiles::new(&config),
            nexus: Nexus::new(&config),
        }
    }

    /// A client for the given key, or `None` where the key cannot be sent as
    /// a header value.
    pub fn try_new(api_key: &str) -> (api: Option<NexusApi>)
        ensures
            match api {
                Some(api) => is_header_value(api_key.spec_bytes()) && api.configured_with(api_key@),
                None => !is_header_value(api_key.spec_bytes()),
            },
    {
        if is_valid_api_key(api_key) {
            Some(NexusApi::new(api_key))
        } else {
            None
        }
    }
}

} // verus!
