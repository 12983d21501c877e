use crate::text::{lowercase, str_eq, to_lowercase};
use vstd::prelude::*;

verus! {

/// The languages in which the program speaks.
#[derive(Clone, Copy, Debug, PartialEq, Eq, Structural)]
pub enum Language {
    Chinese,
    English,
    Japanese,
}

/// The language that a name in lower case stands for; a name that is none
/// of the known ones stands for Chinese.
pub open spec fn language_named(lower: Seq<char>) -> Language {
    if lower == "en"@ || lower == "english"@ {
        Language::English
    } else if lower == "ja"@ || lower == "jp"@ || lower == "japanese"@ {
        Language::Japanese
    } else {
        Language::Chinese
    }
}

impl Language {
    /// The name of the language in the language itself.
    pub fn display_name(&self) -> (r: &'static str)
        ensures
            r@ == match self {
                Language::English => "English"@,
                Language::Japanese => "日本語"@,
                Language::Chinese => "中文"@,
            },
    {
        match self {
            Language::English => "English",
            Language::Japanese => "日本語",
            Language::Chinese => "中文",
        }
    }

    /// The language that a name in lower case stands for.
    pub fn from_lowercase(name: &str) -> (r: Language)
        ensures
            r == language_named(name@),
    {
        if str_eq(name, "en") || str_eq(name, "english") {
            Language::English
        } else if str_eq(name, "ja") || str_eq(name, "jp") || str_eq(name, "japanese") {
            Language::Japanese
        } else {
            Language::Chinese
        }
    }

    /// The language that a name stands for, whatever its case.
    pub fn from_str(lang_str: &str) -> (r: Language)
        ensures
            r == language_named(lowercase(lang_str@)),
    {
        let lower = to_lowercase(lang_str);
        Language::from_lowercase(lower.as_str())
    }
}

} // verus!
