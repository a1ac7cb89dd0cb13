//! Choosing the language that translations are looked up in.
use vstd::prelude::*;

verus! {

/// The canonical text of the language identifier that `unic_langid` reads from `s`, if it
/// reads one.
pub uninterp spec fn canonical_language(s: Seq<char>) -> Option<Seq<char>>;

/// Calls `unic_langid::LanguageIdentifier::from_str` and writes the identifier back as text.
///
/// Claimed of it: the result is the one named by [`canonical_language`], a function of the
/// input text alone.
#[verifier::external_body]
fn parse_language(s: &str) -> (r: Option<String>)
    ensures
        r.deep_view() == canonical_language(s@),
{
    s.parse::<unic_langid::LanguageIdentifier>().ok().map(|l| l.to_string())
}

/// The language used until another one is set.
pub open spec fn fallback_language() -> Seq<char> {
    "en-GB"@
}

/// The message of a language that could not be read.
pub open spec fn parse_failure() -> Seq<char> {
    "Failed to parse locale"@
}

/// The message when the system's language is unknown.
pub open spec fn no_system_locale() -> Seq<char> {
    "Failed to get system locale"@
}

/// The language translations are currently looked up in.
#[derive(Debug)]
pub struct Locale {
    language: String,
}

impl Locale {
    /// The current language, as canonical text.
    pub closed spec fn language_spec(&self) -> Seq<char> {
        self.language@
    }

    /// A locale set to the fallback language, `en-GB`.
    pub fn new() -> (l: Locale)
        ensures
            l.language_spec() == fallback_language(),
    {
        Locale { language: "en-GB".to_owned() }
    }

    /// The current language, as canonical text.
    pub fn language(&self) -> (s: &String)
        ensures
            s@ == self.language_spec(),
    {
        &self.language
    }

    /// Sets the language translations are looked up in.
    pub fn set_language(&mut self, language: String)
        ensures
            final(self).language_spec() == language@,
    {
        self.language = language;
    }

    /// Sets the language to `language` when it is given and returns it; only when no language
    /// is given, falls back to the system's language `system_locale`, which is then set and
    /// returned. A language that cannot be read, or a missing system language where one is
    /// needed, fails and leaves the language as it was.
    pub fn initialise_language(&mut self, language: &Option<String>, system_locale: Option<String>) -> (r: Result<String, String>)
        ensures
            ({
                let wanted = match language {
                    Some(l) => Some(l@),
                    None => match system_locale {
                        Some(s) => Some(s@),
                        None => None,
                    },
                };
                match wanted {
                    None => r matches Err(e) && e@ == no_system_locale()
                        && final(self).language_spec() == old(self).language_spec(),
                    Some(w) => match canonical_language(w) {
                        None => r matches Err(e) && e@ == parse_failure()
                            && final(self).language_spec() == old(self).language_spec(),
                        Some(c) => r matches Ok(v) && v@ == c && final(self).language_spec() == c,
                    },
                }
            }),
    {
        let wanted = match language {
            Some(l) => l.clone(),
            None => match system_locale {
                Some(s) => s,
                None => return Err("Failed to get system locale".to_owned()),
            },
        };
        match parse_language(wanted.as_str()) {
            Some(l) => {
                self.set_language(l.clone());
                Ok(l)
            },
            None => Err("Failed to parse locale".to_owned()),
        }
    }
}

/// Registers the translation configuration with the language to start with.
#[derive(Debug, Default)]
pub struct I18nPlugin {
    /// The language to initialise translations with.
    pub language: Option<String>,
}

impl I18nPlugin {
    /// Builds an [`I18nPlugin`] that starts with `language`.
    pub fn new(language: &Option<String>) -> (p: I18nPlugin)
        ensures
            p.language.deep_view() == language.deep_view(),
    {
        let language = match language {
            Some(l) => Some(l.clone()),
            None => None,
        };
        I18nPlugin { language }
    }
}

} // verus!
