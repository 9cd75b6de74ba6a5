//! The payloads of the account and tracking endpoints.

use vstd::prelude::*;
use crate::json::Json;
use crate::response::Payload;

verus! {

/// The profile behind an API key.
#[derive(Clone, Debug, PartialEq, Eq)]
pub struct ValidateResponse {
    pub user_id: u64,
    pub key: String,
    pub name: String,
    pub email: String,
    pub profile_url: String,
    pub is_premium: bool,
    pub is_supporter: bool,
}

/// A [`ValidateResponse`] as mathematics sees it.
pub struct ValidateResponseView {
    pub user_id: u64,
    pub key: Seq<char>,
    pub name: Seq<char>,
    pub email: Seq<char>,
    pub profile_url: Seq<char>,
    pub is_premium: bool,
    pub is_supporter: bool,
}

impl View for ValidateResponse {
    type V = ValidateResponseView;

    open spec fn view(&self) -> ValidateResponseView {
        ValidateResponseView {
            user_id: self.user_id,
            key: self.key@,
            name: self.name@,
            email: self.email@,
            profile_url: self.profile_url@,
            is_premium: self.is_premium,
            is_supporter: self.is_supporter,
        }
    }
}

impl DeepView for ValidateResponse {
    type V = ValidateResponseView;

    open spec fn deep_view(&self) -> ValidateResponseView {
        self@
    }
}

/// Every member is required; members of other names are passed over.
impl Payload for ValidateResponse {
    open spec fn parsed(json: Json) -> Option<ValidateResponseView> {
        if json.number_at("user_id"@) is Some && json.text_at("key"@) is Some && json.text_at(
            "name"@,
        ) is Some && json.text_at("email"@) is Some && json.text_at("profile_url"@) is Some
            && json.flag_at("is_premium"@) is Some && json.flag_at("is_supporter"@) is Some {
            Some(
                ValidateResponseView {
                    user_id: json.number_at("user_id"@)->0,
                    key: json.text_at("key"@)->0,
                    name: json.text_at("name"@)->0,
                    email: json.text_at("email"@)->0,
                    profile_url: json.text_at("profile_url"@)->0,
                    is_premium: json.flag_at("is_premium"@)->0,
                    is_supporter: json.flag_at("is_supporter"@)->0,
                },
            )
        } else {
            None
        }
    }

    fn from_json(json: &Json) -> (value: Option<ValidateResponse>) {
        let user_id = json.get_number("user_id");
        let key = json.get_text("key");
        let name = json.get_text("name");
        let email = json.get_text("email");
        let profile_url = json.get_text("profile_url");
        let is_premium = json.get_flag("is_premium");
        let is_supporter = json.get_flag("is_supporter");
        match (user_id, key, name, email, profile_url, is_premium, is_supporter) {
            (
                Some(user_id),
                Some(key),
                Some(name),
                Some(email),
                Some(profile_url),
                Some(is_premium),
                Some(is_supporter),
            ) => Some(
                ValidateResponse {
                    user_id,
                    key,
                    name,
                    email,
                    profile_url,
                    is_premium,
                    is_supporter,
                },
            ),
            _ => None,
        }
    }
}

/// A document that lacks one of the seven members of a profile is not a
/// profile: nothing stands in for the missing member.
pub proof fn lemma_profile_needs_every_member(json: Json, key: Seq<char>)
    requires
        key == "user_id"@ || key == "key"@ || key == "name"@ || key == "email"@ || key
            == "profile_url"@ || key == "is_premium"@ || key == "is_supporter"@,
        json.member(key) is None,
    ensures
        ValidateResponse::parsed(json) is None,
{
}

/// One tracked mod: its number and the game it belongs to.
#[derive(Clone, Debug, PartialEq, Eq)]
pub struct TrackedModsCommon {
    pub mod_id: u32,
    pub domain_name: String,
}

/// A [`TrackedModsCommon`] as mathematics sees it.
pub struct TrackedModsCommonView {
    pub mod_id: u32,
    pub domain_name: Seq<char>,
}

impl View for TrackedModsCommon {
    type V = TrackedModsCommonView;

    open spec fn view(&self) -> TrackedModsCommonView {
        TrackedModsCommonView { mod_id: self.mod_id, domain_name: self.domain_name@ }
    }
}

impl DeepView for TrackedModsCommon {
    type V = TrackedModsCommonView;

    open spec fn deep_view(&self) -> TrackedModsCommonView {
        self@
    }
}

/// Both members are required, and the number must fit 32 bits.
impl Payload for TrackedModsCommon {
    open spec fn parsed(json: Json) -> Option<TrackedModsCommonView> {
        if json.number_at("mod_id"@) is Some && json.number_at("mod_id"@)->0 <= u32::MAX
            && json.text_at("domain_name"@) is Some {
            Some(
                TrackedModsCommonView {
                    mod_id: json.number_at("mod_id"@)->0 as u32,
                    domain_name: json.text_at("domain_name"@)->0,
                },
            )
        } else {
            None
        }
    }

    fn from_json(json: &Json) -> (value: Option<TrackedModsCommon>) {
        let mod_id = json.get_number("mod_id");
        let domain_name = json.get_text("domain_name");
        match (mod_id, domain_name) {
            (Some(mod_id), Some(domain_name)) => {
                if mod_id <= 0xffff_ffff {
                    Some(TrackedModsCommon { mod_id: mod_id as u32, domain_name })
                } else {
                    None
                }
            },
            _ => None,
        }
    }
}

/// A document that lacks the number or the game is not a tracked mod.
pub proof fn lemma_tracked_mod_needs_every_member(json: Json, key: Seq<char>)
    requires
        key == "mod_id"@ || key == "domain_name"@,
        json.member(key) is None,
    ensures
        TrackedModsCommon::parsed(json) is None,
{
}

/// The tracked mods of an account.
pub type TrackedModsGetResponse = Vec<TrackedModsCommon>;

/// What the service says after a change.
#[derive(Clone, Debug, PartialEq, Eq)]
pub struct Message {
    pub message: String,
}

/// A [`Message`] as mathematics sees it.
pub struct MessageView {
    pub message: Seq<char>,
}

impl View for Message {
    type V = MessageView;

    open spec fn view(&self) -> MessageView {
        MessageView { message: self.message@ }
    }
}

impl DeepView for Message {
    type V = MessageView;

    open spec fn deep_view(&self) -> MessageView {
        self@
    }
}

impl Payload for Message {
    open spec fn parsed(json: Json) -> Option<MessageView> {
        match json.text_at("message"@) {
            Some(message) => Some(MessageView { message }),
            None => None,
        }
    }

    fn from_json(json: &Json) -> (value: Option<Message>) {
        match json.get_text("message") {
            Some(message) => Some(Message { message }),
            None => None,
        }
    }
}

/// A document without a `message` member is not a message.
pub proof fn lemma_message_needs_its_member(json: Json)
    requires
        json.member("message"@) is None,
    ensures
        Message::parsed(json) is None,
{
}

} // verus!
