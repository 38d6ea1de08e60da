use crate::text::{chars_of, string_of, strip_bounds, trim, CharClass};
use vstd::prelude::*;
use vstd::string::*;

verus! {

/// The model that a fresh configuration names.
pub open spec fn default_model() -> Seq<char> {
    "qwen-turbo"@
}

/// The settings of the assistant that live in memory. The API key is never among them.
#[derive(Debug)]
pub struct AiConfig {
    pub model: String,
}

impl AiConfig {
    /// The configuration at startup.
    pub fn initial() -> (config: AiConfig)
        ensures
            config.model@ == default_model(),
    {
        AiConfig { model: String::from_str("qwen-turbo") }
    }
}

impl Default for AiConfig {
    fn default() -> (config: AiConfig)
        ensures
            config.model@ == Seq::<char>::empty(),
    {
        AiConfig { model: String::new() }
    }
}

/// What the assistant reports of its setup.
#[derive(Debug)]
pub struct AiStatus {
    pub has_api_key: bool,
    pub model: String,
}

/// What is to become of the stored API key when the settings change.
#[derive(Debug)]
pub enum KeyUpdate {
    /// No key was given: the stored key stays.
    Keep,
    /// A blank key was given: the stored key is deleted.
    Clear,
    /// A key was given: it is stored, trimmed.
    Store(String),
}

/// A key update, the key as a sequence of characters.
pub enum KeyUpdateView {
    Keep,
    Clear,
    Store(Seq<char>),
}

impl View for KeyUpdate {
    type V = KeyUpdateView;

    open spec fn view(&self) -> KeyUpdateView {
        match self {
            KeyUpdate::Keep => KeyUpdateView::Keep,
            KeyUpdate::Clear => KeyUpdateView::Clear,
            KeyUpdate::Store(key) => KeyUpdateView::Store(key@),
        }
    }
}

/// What a given key asks for: nothing where none is given, deletion where it is blank, and
/// else that it be stored without the white space around it.
pub open spec fn key_update(api_key: Option<Seq<char>>) -> KeyUpdateView {
    match api_key {
        None => KeyUpdateView::Keep,
        Some(key) => if trim(key).len() == 0 {
            KeyUpdateView::Clear
        } else {
            KeyUpdateView::Store(trim(key))
        },
    }
}

/// The status for a configuration and the key that the secret store returned.
pub fn get_ai_status(config: &AiConfig, api_key: &Option<String>) -> (status: AiStatus)
    ensures
        status.has_api_key == api_key.is_some(),
        status.model@ == config.model@,
{
    AiStatus { has_api_key: api_key.is_some(), model: config.model.clone() }
}

/// Takes over new settings: the model name is replaced, and the result says what is to
/// become of the stored key.
pub fn set_ai_config(config: &mut AiConfig, api_key: Option<String>, model: String) -> (update:
    KeyUpdate)
    ensures
        final(config).model == model,
        update@ == key_update(
            match api_key {
                Some(key) => Some(key@),
                None => None,
            },
        ),
{
    config.model = model;
    match api_key {
        None => KeyUpdate::Keep,
        Some(key) => {
            let chars = chars_of(key.as_str());
            assert(chars@.subrange(0, chars@.len() as int) =~= key@);
            let (lo, hi) = strip_bounds(&chars, 0, chars.len(), CharClass::Whitespace);
            if lo == hi {
                KeyUpdate::Clear
            } else {
                KeyUpdate::Store(string_of(&chars, lo, hi))
            }
        },
    }
}

} // verus!
