use vstd::prelude::*;

use crate::config::UiLanguage;

verus! {

/// The text of the language: the Chinese one or the English one.
pub open spec fn tr_spec(lang: UiLanguage, zh: Seq<char>, en: Seq<char>) -> Seq<char> {
    match lang {
        UiLanguage::ZhCn => zh,
        UiLanguage::En => en,
    }
}

/// Pick the correct string for the current language.
pub fn tr(lang: UiLanguage, zh: &'static str, en: &'static str) -> (s: &'static str)
    ensures
        s@ == tr_spec(lang, zh@, en@),
{
    match lang {
        UiLanguage::ZhCn => zh,
        UiLanguage::En => en,
    }
}

} // verus!
