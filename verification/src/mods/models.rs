//! The selectors and payloads of the mod endpoints.

use vstd::prelude::*;
use vstd::string::*;
use crate::encoding::{is_plain, lemma_char_range};
use crate::json::Json;
use crate::response::Payload;

verus! {

/// How far back a list of updated mods reaches.
#[derive(Clone, Copy, Debug, PartialEq, Eq, Structural)]
pub enum Period {
    Day,
    Week,
    Month,
}

impl Period {
    /// The word the service knows the period by.
    pub open spec fn word(self) -> Seq<char> {
        match self {
            Period::Day => "1d"@,
            Period::Week => "1w"@,
            Period::Month => "1m"@,
        }
    }

    /// The word the service knows the period by.
    pub fn as_str(&self) -> (word: &'static str)
        ensures
            word@ == self.word(),
    {
        match self {
            Period::Day => "1d",
            Period::Week => "1w",
            Period::Month => "1m",
        }
    }

    /// The word the service knows the period by, as an owned string.
    pub fn to_string(&self) -> (word: String)
        ensures
            word@ == self.word(),
    {
        String::from_str(self.as_str())
    }

    /// The word of a period is made of unreserved characters only.
    pub proof fn lemma_word_is_plain(self)
        ensures
            is_plain(self.word()),
    {
        reveal_strlit("1d");
        reveal_strlit("1w");
        reveal_strlit("1m");
        let word = self.word();
        assert forall|i: int| 0 <= i < word.len() implies crate::encoding::is_encoded_char(
            #[trigger] word[i],
        ) && word[i] != '%' by {
            lemma_char_range(word[i]);
        }
    }
}

/// What the service says after an endorsement or its withdrawal.
#[derive(Clone, Debug, PartialEq, Eq)]
pub struct ModEndorsementResult {
    pub status: String,
    pub message: String,
}

/// A [`ModEndorsementResult`] as mathematics sees it.
pub struct ModEndorsementResultView {
    pub status: Seq<char>,
    pub message: Seq<char>,
}

impl View for ModEndorsementResult {
    type V = ModEndorsementResultView;

    open spec fn view(&self) -> ModEndorsementResultView {
        ModEndorsementResultView { status: self.status@, message: self.message@ }
    }
}

impl DeepView for ModEndorsementResult {
    type V = ModEndorsementResultView;

    open spec fn deep_view(&self) -> ModEndorsementResultView {
        self@
    }
}

/// Both members are required.
impl Payload for ModEndorsementResult {
    open spec fn parsed(json: Json) -> Option<ModEndorsementResultView> {
        if json.text_at("status"@) is Some && json.text_at("message"@) is Some {
            Some(
                ModEndorsementResultView {
                    status: json.text_at("status"@)->0,
                    message: json.text_at("message"@)->0,
                },
            )
        } else {
            None
        }
    }

    fn from_json(json: &Json) -> (value: Option<ModEndorsementResult>) {
        let status = json.get_text("status");
        let message = json.get_text("message");
        match (status, message) {
            (Some(status), Some(message)) => Some(ModEndorsementResult { status, message }),
            _ => None,
        }
    }
}

/// A document that lacks the status or the message is not an endorsement
/// result.
pub proof fn lemma_endorsement_needs_every_member(json: Json, key: Seq<char>)
    requires
        key == "status"@ || key == "message"@,
        json.member(key) is None,
    ensures
        ModEndorsementResult::parsed(json) is None,
{
}

/// The changes of a mod: for each version the lines that describe it, the
/// versions in the order in which the parsed document lists its members.
#[derive(Clone, Debug, PartialEq, Eq)]
pub struct Changelog {
    pub versions: Vec<(String, Vec<String>)>,
}

impl View for Changelog {
    type V = Seq<(Seq<char>, Seq<Seq<char>>)>;

    open spec fn view(&self) -> Seq<(Seq<char>, Seq<Seq<char>>)> {
        Seq::new(
            self.versions@.len(),
            |i: int| (self.versions@[i].0@, self.versions@[i].1.deep_view()),
        )
    }
}

impl DeepView for Changelog {
    type V = Seq<(Seq<char>, Seq<Seq<char>>)>;

    open spec fn deep_view(&self) -> Seq<(Seq<char>, Seq<Seq<char>>)> {
        self@
    }
}

/// An object is a changelog where the value of every member is a list of
/// strings.
impl Payload for Changelog {
    open spec fn parsed(json: Json) -> Option<Seq<(Seq<char>, Seq<Seq<char>>)>> {
        match json {
            Json::Object(members) => if forall|i: int|
                0 <= i < members@.len() ==> (#[trigger] Vec::<String>::parsed(members@[i].1))
                    is Some {
                Some(
                    Seq::new(
                        members@.len(),
                        |i: int| (members@[i].0@, Vec::<String>::parsed(members@[i].1)->0),
                    ),
                )
            } else {
                None
            },
            _ => None,
        }
    }

    fn from_json(json: &Json) -> (value: Option<Changelog>) {
        match json {
            Json::Object(members) => {
                let n = members.len();
                let mut versions: Vec<(String, Vec<String>)> = Vec::new();
                let mut i: usize = 0;
                while i < n
                    invariant
                        n == members@.len(),
                        i <= n,
                        *json == Json::Object(*members),
                        versions@.len() == i,
                        forall|k: int|
                            0 <= k < i ==> (#[trigger] Vec::<String>::parsed(members@[k].1))
                                == Some(versions@[k].1.deep_view()) && versions@[k].0@
                                == members@[k].0@,
                    decreases n - i,
                {
                    match Vec::<String>::from_json(&members[i].1) {
                        Some(lines) => {
                            versions.push((members[i].0.clone(), lines));
                        },
                        None => {
                            return None;
                        },
                    }
                    i += 1;
                }
                let log = Changelog { versions };
                assert(log@ =~= Seq::new(
                    members@.len(),
                    |k: int| (members@[k].0@, Vec::<String>::parsed(members@[k].1)->0),
                ));
                Some(log)
            },
            _ => None,
        }
    }
}

} // verus!
