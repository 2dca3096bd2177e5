//! The decorator that names the language of the renderable text of a message.

use vstd::prelude::*;
use vstd::string::StringExecFns;

verus! {

/// The locale of the renderable text of a message.
#[derive(Clone, Debug, PartialEq)]
pub struct Localization {
    pub locale: String,
}

impl View for Localization {
    type V = Seq<char>;

    open spec fn view(&self) -> Seq<char> {
        self.locale@
    }
}

impl DeepView for Localization {
    type V = Seq<char>;

    open spec fn deep_view(&self) -> Seq<char> {
        self@
    }
}

impl Default for Localization {
    /// English.
    fn default() -> (l10n: Localization)
        ensures
            l10n@ == "en"@,
    {
        Localization { locale: String::from_str("en") }
    }
}

} // verus!
