use vstd::prelude::*;

use crate::error::IndexError;

verus! {

/// The stemming language of an analysis pipeline.
///
/// The engine is handed one named pipeline per distinct language; the
/// language is part of the index configuration and takes part in the
/// staleness comparison.
#[derive(Debug, Clone, Copy, PartialEq, Eq, Structural)]
pub enum LanguageRef {
    Arabic,
    Danish,
    Dutch,
    English,
    Finnish,
    French,
    German,
    Greek,
    Hungarian,
    Italian,
    Norwegian,
    Portuguese,
    Romanian,
    Russian,
    Spanish,
    Swedish,
    Tamil,
    Turkish,
}

/// What `str::to_lowercase` returns: a function of the characters alone.
pub uninterp spec fn lower_of(s: Seq<char>) -> Seq<char>;

/// Relies on str::to_lowercase: the result depends on the characters alone.
#[verifier::external_body]
pub(crate) fn lowercase(s: &str) -> (r: String)
    ensures
        r@ == lower_of(s@),
{
    s.to_lowercase()
}

/// The language named by a lowercased word, if any.
pub open spec fn parse_language(low: Seq<char>) -> Option<LanguageRef> {
    if low == "arabic"@ {
        Some(LanguageRef::Arabic)
    } else if low == "danish"@ {
        Some(LanguageRef::Danish)
    } else if low == "dutch"@ {
        Some(LanguageRef::Dutch)
    } else if low == "english"@ {
        Some(LanguageRef::English)
    } else if low == "finnish"@ {
        Some(LanguageRef::Finnish)
    } else if low == "french"@ {
        Some(LanguageRef::French)
    } else if low == "german"@ {
        Some(LanguageRef::German)
    } else if low == "greek"@ {
        Some(LanguageRef::Greek)
    } else if low == "hungarian"@ {
        Some(LanguageRef::Hungarian)
    } else if low == "italian"@ {
        Some(LanguageRef::Italian)
    } else if low == "norwegian"@ {
        Some(LanguageRef::Norwegian)
    } else if low == "portuguese"@ {
        Some(LanguageRef::Portuguese)
    } else if low == "romanian"@ {
        Some(LanguageRef::Romanian)
    } else if low == "russian"@ {
        Some(LanguageRef::Russian)
    } else if low == "spanish"@ {
        Some(LanguageRef::Spanish)
    } else if low == "swedish"@ {
        Some(LanguageRef::Swedish)
    } else if low == "tamil"@ {
        Some(LanguageRef::Tamil)
    } else if low == "turkish"@ {
        Some(LanguageRef::Turkish)
    } else {
        None
    }
}

impl LanguageRef {
    /// Parses a language word, case-insensitively.
    ///
    /// Returns `Ok` exactly when the lowercased word names a language,
    /// and `Err` with the offending word otherwise.
    pub fn from_str(s: &str) -> (r: Result<LanguageRef, IndexError>)
        ensures
            match r {
                Ok(l) => parse_language(lower_of(s@)) == Some(l),
                Err(e) => parse_language(lower_of(s@)) is None && e is InvalidValue,
            },
    {
        let low = lowercase(s);
        if low == String::from_str("arabic") {
            Ok(LanguageRef::Arabic)
        } else if low == String::from_str("danish") {
            Ok(LanguageRef::Danish)
        } else if low == String::from_str("dutch") {
            Ok(LanguageRef::Dutch)
        } else if low == String::from_str("english") {
            Ok(LanguageRef::English)
        } else if low == String::from_str("finnish") {
            Ok(LanguageRef::Finnish)
        } else if low == String::from_str("french") {
            Ok(LanguageRef::French)
        } else if low == String::from_str("german") {
            Ok(LanguageRef::German)
        } else if low == String::from_str("greek") {
            Ok(LanguageRef::Greek)
        } else if low == String::from_str("hungarian") {
            Ok(LanguageRef::Hungarian)
        } else if low == String::from_str("italian") {
            Ok(LanguageRef::Italian)
        } else if low == String::from_str("norwegian") {
            Ok(LanguageRef::Norwegian)
        } else if low == String::from_str("portuguese") {
            Ok(LanguageRef::Portuguese)
        } else if low == String::from_str("romanian") {
            Ok(LanguageRef::Romanian)
        } else if low == String::from_str("russian") {
            Ok(LanguageRef::Russian)
        } else if low == String::from_str("spanish") {
            Ok(LanguageRef::Spanish)
        } else if low == String::from_str("swedish") {
            Ok(LanguageRef::Swedish)
        } else if low == String::from_str("tamil") {
            Ok(LanguageRef::Tamil)
        } else if low == String::from_str("turkish") {
            Ok(LanguageRef::Turkish)
        } else {
            Err(IndexError::InvalidValue(low))
        }
    }

    /// The name under which this language's analysis pipeline is
    /// registered with the engine.
    pub open spec fn spec_tokenizer_name(self) -> Seq<char> {
        match self {
            LanguageRef::Arabic => "stemmer_arabic"@,
            LanguageRef::Danish => "stemmer_danish"@,
            LanguageRef::Dutch => "stemmer_dutch"@,
            LanguageRef::English => "stemmer_english"@,
            LanguageRef::Finnish => "stemmer_finnish"@,
            LanguageRef::French => "stemmer_french"@,
            LanguageRef::German => "stemmer_german"@,
            LanguageRef::Greek => "stemmer_greek"@,
            LanguageRef::Hungarian => "stemmer_hungarian"@,
            LanguageRef::Italian => "stemmer_italian"@,
            LanguageRef::Norwegian => "stemmer_norwegian"@,
            LanguageRef::Portuguese => "stemmer_portuguese"@,
            LanguageRef::Romanian => "stemmer_romanian"@,
            LanguageRef::Russian => "stemmer_russian"@,
            LanguageRef::Spanish => "stemmer_spanish"@,
            LanguageRef::Swedish => "stemmer_swedish"@,
            LanguageRef::Tamil => "stemmer_tamil"@,
            LanguageRef::Turkish => "stemmer_turkish"@,
        }
    }

    /// The pipeline name, as a value to hand to the engine's registry.
    ///
    /// Registering under this name every time the index is opened keeps
    /// previously indexed token forms searchable: the same language always
    /// yields the same name.
    pub fn tokenizer_name(self) -> (r: String)
        ensures
            r@ == self.spec_tokenizer_name(),
    {
        match self {
            LanguageRef::Arabic => String::from_str("stemmer_arabic"),
            LanguageRef::Danish => String::from_str("stemmer_danish"),
            LanguageRef::Dutch => String::from_str("stemmer_dutch"),
            LanguageRef::English => String::from_str("stemmer_english"),
            LanguageRef::Finnish => String::from_str("stemmer_finnish"),
            LanguageRef::French => String::from_str("stemmer_french"),
            LanguageRef::German => String::from_str("stemmer_german"),
            LanguageRef::Greek => String::from_str("stemmer_greek"),
            LanguageRef::Hungarian => String::from_str("stemmer_hungarian"),
            LanguageRef::Italian => String::from_str("stemmer_italian"),
            LanguageRef::Norwegian => String::from_str("stemmer_norwegian"),
            LanguageRef::Portuguese => String::from_str("stemmer_portuguese"),
            LanguageRef::Romanian => String::from_str("stemmer_romanian"),
            LanguageRef::Russian => String::from_str("stemmer_russian"),
            LanguageRef::Spanish => String::from_str("stemmer_spanish"),
            LanguageRef::Swedish => String::from_str("stemmer_swedish"),
            LanguageRef::Tamil => String::from_str("stemmer_tamil"),
            LanguageRef::Turkish => String::from_str("stemmer_turkish"),
        }
    }
}

} // verus!
