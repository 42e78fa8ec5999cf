//! The closed set of interface languages, with the identifier tag handed to
//! the message-catalog collaborator and the native display name.

use vstd::prelude::*;

verus! {

/// A language the interface can be shown in.
#[derive(Clone, Copy, Debug, PartialEq, Eq, Structural)]
pub enum SupportedLanguageEnum {
    Polish,
    English,
}

/// The fixed order in which the languages are offered in the settings panel.
pub open spec fn all_languages() -> Seq<SupportedLanguageEnum> {
    seq![SupportedLanguageEnum::Polish, SupportedLanguageEnum::English]
}

/// The BCP 47 tag of a language, as the catalog loader expects it.
pub open spec fn language_id_spec(l: SupportedLanguageEnum) -> Seq<char> {
    match l {
        SupportedLanguageEnum::Polish => "pl"@,
        SupportedLanguageEnum::English => "en-US"@,
    }
}

/// The language's name in that language, shown in the picker.
pub open spec fn language_name_spec(l: SupportedLanguageEnum) -> Seq<char> {
    match l {
        SupportedLanguageEnum::Polish => "Polski"@,
        SupportedLanguageEnum::English => "English"@,
    }
}

impl SupportedLanguageEnum {
    /// Every supported language, in the order the picker offers them.
    pub fn iter() -> (r: Vec<SupportedLanguageEnum>)
        ensures
            r@ == all_languages(),
    {
        let mut v: Vec<SupportedLanguageEnum> = Vec::new();
        v.push(SupportedLanguageEnum::Polish);
        v.push(SupportedLanguageEnum::English);
        proof {
            assert(v@ =~= all_languages());
        }
        v
    }

    /// The BCP 47 tag of this language.
    pub fn id(&self) -> (r: &'static str)
        ensures
            r@ == language_id_spec(*self),
    {
        match self {
            SupportedLanguageEnum::Polish => "pl",
            SupportedLanguageEnum::English => "en-US",
        }
    }

    /// The native display name of this language.
    pub fn name(&self) -> (r: &'static str)
        ensures
            r@ == language_name_spec(*self),
    {
        match self {
            SupportedLanguageEnum::Polish => "Polski",
            SupportedLanguageEnum::English => "English",
        }
    }
}

} // verus!
