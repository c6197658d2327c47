//! The operator's settings.

use vstd::prelude::*;
use crate::i18n::Language;

verus! {

/// What the operator has chosen once and for all sessions.
#[derive(Debug, Clone, Copy, PartialEq, Eq, Structural)]
pub struct AppSettings {
    pub language: Language,
}

impl Default for AppSettings {
    fn default() -> (r: AppSettings)
        ensures
            r.language == Language::English,
    {
        AppSettings { language: Language::English }
    }
}

} // verus!
