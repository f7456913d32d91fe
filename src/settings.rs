//! Translation settings and their resolution from a caller's JSON document.
use vstd::prelude::*;
use crate::error::AdapterError;
use crate::json::{json_model, json_parse, parse_json, text_field, text_member, JsonNode};

verus! {

/// The options a caller may set for a translation.
#[derive(Debug, Clone, PartialEq, Eq)]
pub struct TranslationSettings {
    pub translation_style: String,
    pub formality_level: String,
    pub speaker_gender: String,
    pub addressee_gender: String,
    pub context: String,
}

/// The options of a [`TranslationSettings`] as text.
pub struct SettingsModel {
    pub translation_style: Seq<char>,
    pub formality_level: Seq<char>,
    pub speaker_gender: Seq<char>,
    pub addressee_gender: Seq<char>,
    pub context: Seq<char>,
}

impl View for TranslationSettings {
    type V = SettingsModel;

    open spec fn view(&self) -> SettingsModel {
        SettingsModel {
            translation_style: self.translation_style@,
            formality_level: self.formality_level@,
            speaker_gender: self.speaker_gender@,
            addressee_gender: self.addressee_gender@,
            context: self.context@,
        }
    }
}

/// The settings a caller gets by leaving every option out.
pub open spec fn default_settings() -> SettingsModel {
    SettingsModel {
        translation_style: "natural"@,
        formality_level: "neutral"@,
        speaker_gender: "unknown"@,
        addressee_gender: "unknown"@,
        context: ""@,
    }
}

/// The string member `key` of `node`, or `default` where there is none.
pub open spec fn text_member_or(node: JsonNode, key: Seq<char>, default: Seq<char>) -> Seq<char> {
    match text_member(node, key) {
        Some(s) => s,
        None => default,
    }
}

/// Each option taken from the document where it holds a string there, else its default.
pub open spec fn settings_of(node: JsonNode) -> SettingsModel {
    let d = default_settings();
    SettingsModel {
        translation_style: text_member_or(node, "translation_style"@, d.translation_style),
        formality_level: text_member_or(node, "formality_level"@, d.formality_level),
        speaker_gender: text_member_or(node, "speaker_gender"@, d.speaker_gender),
        addressee_gender: text_member_or(node, "addressee_gender"@, d.addressee_gender),
        context: text_member_or(node, "context"@, d.context),
    }
}

/// The settings a document resolves to, or `None` where it is not JSON.
pub open spec fn resolution(doc: Seq<char>) -> Option<SettingsModel> {
    match json_parse(doc) {
        Some(node) => Some(settings_of(node)),
        None => None,
    }
}

impl Default for TranslationSettings {
    fn default() -> (r: TranslationSettings)
        ensures
            r@ == default_settings(),
    {
        TranslationSettings {
            translation_style: "natural".to_string(),
            formality_level: "neutral".to_string(),
            speaker_gender: "unknown".to_string(),
            addressee_gender: "unknown".to_string(),
            context: "".to_string(),
        }
    }
}

fn option_or(o: Option<String>, default: &str) -> (r: String)
    ensures
        r@ == match o {
            Some(s) => s@,
            None => default@,
        },
{
    match o {
        Some(s) => s,
        None => default.to_string(),
    }
}

/// The settings that a parsed document holds, each option defaulting on its own.
pub fn settings_from_value(v: &serde_json::Value) -> (r: TranslationSettings)
    ensures
        r@ == settings_of(json_model(*v)),
{
    TranslationSettings {
        translation_style: option_or(text_field(v, "translation_style"), "natural"),
        formality_level: option_or(text_field(v, "formality_level"), "neutral"),
        speaker_gender: option_or(text_field(v, "speaker_gender"), "unknown"),
        addressee_gender: option_or(text_field(v, "addressee_gender"), "unknown"),
        context: option_or(text_field(v, "context"), ""),
    }
}

/// Resolves a settings document. Unknown keys are ignored; a recognised key that is
/// missing or not a string takes its default; a text that is not JSON is refused.
pub fn resolve_settings(doc: &str) -> (r: Result<TranslationSettings, AdapterError>)
    ensures
        match resolution(doc@) {
            Some(m) => r matches Ok(s) && s@ == m,
            None => r matches Err(AdapterError::InvalidSettings),
        },
{
    match parse_json(doc) {
        Ok(v) => Ok(settings_from_value(&v)),
        Err(_) => Err(AdapterError::InvalidSettings),
    }
}

/// Resolution succeeds on every JSON document, and each recognised key that the
/// document does not hold as a string takes its documented default.
pub proof fn lemma_partial_settings_take_defaults(doc: Seq<char>)
    requires
        json_parse(doc) is Some,
    ensures
        resolution(doc) is Some,
        ({
            let node = json_parse(doc)->Some_0;
            let m = resolution(doc)->Some_0;
            let d = default_settings();
            &&& text_member(node, "translation_style"@) is None ==> m.translation_style == d.translation_style
            &&& text_member(node, "formality_level"@) is None ==> m.formality_level == d.formality_level
            &&& text_member(node, "speaker_gender"@) is None ==> m.speaker_gender == d.speaker_gender
            &&& text_member(node, "addressee_gender"@) is None ==> m.addressee_gender == d.addressee_gender
            &&& text_member(node, "context"@) is None ==> m.context == d.context
        }),
{
}

/// Where a document holds every recognised key as a string, resolution takes each
/// of them verbatim and substitutes none.
pub proof fn lemma_explicit_settings_kept(doc: Seq<char>)
    requires
        json_parse(doc) is Some,
        text_member(json_parse(doc)->Some_0, "translation_style"@) is Some,
        text_member(json_parse(doc)->Some_0, "formality_level"@) is Some,
        text_member(json_parse(doc)->Some_0, "speaker_gender"@) is Some,
        text_member(json_parse(doc)->Some_0, "addressee_gender"@) is Some,
        text_member(json_parse(doc)->Some_0, "context"@) is Some,
    ensures
        ({
            let node = json_parse(doc)->Some_0;
            let m = resolution(doc)->Some_0;
            &&& Some(m.translation_style) == text_member(node, "translation_style"@)
            &&& Some(m.formality_level) == text_member(node, "formality_level"@)
            &&& Some(m.speaker_gender) == text_member(node, "speaker_gender"@)
            &&& Some(m.addressee_gender) == text_member(node, "addressee_gender"@)
            &&& Some(m.context) == text_member(node, "context"@)
        }),
{
}

} // verus!
