//! Fixed-field prompt and locale records, as the `resources/prompts.json` and
//! `resources/locale.json` files hold them.
use vstd::prelude::*;

verus! {

/// The system prompts of the assistant and of the summarizer.
pub struct Prompts {
    pub assistant_system_prompt: String,
    pub summarizer_prompt: String,
}

/// The welcome text and the labels of the help and settings buttons.
pub struct Locale {
    pub welcome_message: String,
    pub help_button: String,
    pub settings_button: String,
}

} // verus!
