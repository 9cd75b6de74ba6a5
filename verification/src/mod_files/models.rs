//! The selectors of the file endpoints.

use vstd::prelude::*;
use vstd::string::*;
use crate::encoding::{is_plain, lemma_char_range};

verus! {

/// The kinds of file a mod page lists.
#[derive(Clone, Copy, Debug, PartialEq, Eq, Structural)]
pub enum ModFileCategory {
    Main,
    Update,
    Optional,
    OldVersion,
    Miscellaneous,
}

impl ModFileCategory {
    /// The word the service knows the category by.
    pub open spec fn word(self) -> Seq<char> {
        match self {
            ModFileCategory::Main => "main"@,
            ModFileCategory::Update => "update"@,
            ModFileCategory::Optional => "optional"@,
            ModFileCategory::OldVersion => "old_version"@,
            ModFileCategory::Miscellaneous => "miscellaneous"@,
        }
    }

    /// The word the service knows the category by.
    pub fn as_str(&self) -> (word: &'static str)
        ensures
            word@ == self.word(),
    {
        match self {
            ModFileCategory::Main => "main",
            ModFileCategory::Update => "update",
            ModFileCategory::Optional => "optional",
            ModFileCategory::OldVersion => "old_version",
            ModFileCategory::Miscellaneous => "miscellaneous",
        }
    }

    /// The word the service knows the category by, as an owned string.
    pub fn to_string(&self) -> (word: String)
        ensures
            word@ == self.word(),
    {
        String::from_str(self.as_str())
    }

    /// The word of a category is made of unreserved characters only.
    pub proof fn lemma_word_is_plain(self)
        ensures
            is_plain(self.word()),
    {
        reveal_strlit("main");
        reveal_strlit("update");
        reveal_strlit("optional");
        reveal_strlit("old_version");
        reveal_strlit("miscellaneous");
        let word = self.word();
        assert forall|i: int| 0 <= i < word.len() implies crate::encoding::is_encoded_char(
            #[trigger] word[i],
        ) && word[i] != '%' by {
            lemma_char_range(word[i]);
        }
    }
}

} // verus!
