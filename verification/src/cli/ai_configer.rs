//! Reading and changing the `ai` section of the configuration.

use crate::config::{
    ai_of, entries_of, is_section, put_text, sections_of, AiConfig, AiConfigView, EntryView,
    Settings,
};
use vstd::prelude::*;
use vstd::string::StringExecFns;

verus! {

/// What the tool needs of the `ai` section and did not find.
#[derive(Debug, Clone, Copy, PartialEq, Eq, Structural)]
pub enum ConfigMissing {
    /// The section itself.
    Section,
    Url,
    Model,
    ApiKey,
    Language,
}

/// The new value of a field: the one given, or the old one where none is
/// given.
pub open spec fn updated(old_value: Option<Seq<char>>, given: Option<String>) -> Option<Seq<char>> {
    match given {
        Some(value) => Some(value@),
        None => old_value,
    }
}

/// The entries of a document once a value, where one is given, is put
/// under a key of the `ai` section.
pub open spec fn with_text(
    entries: Map<(Seq<char>, Seq<char>), EntryView>,
    key: Seq<char>,
    given: Option<String>,
) -> Map<(Seq<char>, Seq<char>), EntryView> {
    match given {
        Some(value) => entries.insert(("ai"@, key), EntryView::Text(value@)),
        None => entries,
    }
}

/// The entries of a document once the values given for the four fields of
/// the `ai` section are put there.
pub open spec fn updated_entries(
    entries: Map<(Seq<char>, Seq<char>), EntryView>,
    model: Option<String>,
    apikey: Option<String>,
    url: Option<String>,
    language: Option<String>,
) -> Map<(Seq<char>, Seq<char>), EntryView> {
    with_text(
        with_text(with_text(with_text(entries, "model"@, model), "apikey"@, apikey), "url"@, url),
        "language"@,
        language,
    )
}

/// The `ai` section once the values given for its four fields are put
/// there.
pub open spec fn updated_ai(
    ai: AiConfigView,
    model: Option<String>,
    apikey: Option<String>,
    url: Option<String>,
    language: Option<String>,
) -> AiConfigView {
    AiConfigView {
        model: updated(ai.model, model),
        apikey: updated(ai.apikey, apikey),
        url: updated(ai.url, url),
        language: updated(ai.language, language),
    }
}

fn put_given(config: &mut toml::Value, key: &str, given: &Option<String>)
    requires
        sections_of(*old(config)).contains("ai"@),
    ensures
        sections_of(*final(config)) == sections_of(*old(config)),
        entries_of(*final(config)) == with_text(entries_of(*old(config)), key@, *given),
{
    if let Some(value) = given {
        put_text(config, "ai", key, value.as_str());
    }
}

/// The keys of the `ai` section are four different words.
proof fn lemma_keys_differ()
    ensures
        "model"@ != "apikey"@,
        "model"@ != "url"@,
        "model"@ != "language"@,
        "apikey"@ != "url"@,
        "apikey"@ != "language"@,
        "url"@ != "language"@,
{
    reveal_strlit("model");
    reveal_strlit("apikey");
    reveal_strlit("url");
    reveal_strlit("language");
    assert("model"@.len() == 5 && "apikey"@.len() == 6);
    assert("url"@.len() == 3 && "language"@.len() == 8);
}

/// Sets those fields of the `ai` section of a document for which a value
/// is given, and leaves the others, and everything else in the document, as
/// they are. A document without the section is left as it is, and the
/// section is reported missing.
pub fn update_ai_config(
    config: &mut toml::Value,
    model: &Option<String>,
    apikey: &Option<String>,
    url: &Option<String>,
    language: &Option<String>,
) -> (done: Result<(), ConfigMissing>)
    ensures
        sections_of(*final(config)) == sections_of(*old(config)),
        (match ai_of(*old(config)) {
            None => {
                &&& done == Err::<(), ConfigMissing>(ConfigMissing::Section)
                &&& *final(config) == *old(config)
            },
            Some(ai) => {
                &&& done is Ok
                &&& entries_of(*final(config)) == updated_entries(
                    entries_of(*old(config)),
                    *model,
                    *apikey,
                    *url,
                    *language,
                )
                &&& ai_of(*final(config)) == Some(updated_ai(ai, *model, *apikey, *url, *language))
            },
        }),
{
    if !is_section(config, "ai") {
        return Err(ConfigMissing::Section);
    }
    put_given(config, "model", model);
    put_given(config, "apikey", apikey);
    put_given(config, "url", url);
    put_given(config, "language", language);
    proof {
        lemma_keys_differ();
    }
    Ok(())
}

/// Retrieves the `ai` section, which must be there for the tool to reach a
/// model.
pub fn get_ai_config(settings: &Settings) -> (section: Result<&AiConfig, ConfigMissing>)
    ensures
        (match settings.ai {
            Some(ai) => section == Ok::<&AiConfig, ConfigMissing>(&ai),
            None => section == Err::<&AiConfig, ConfigMissing>(ConfigMissing::Section),
        }),
{
    match &settings.ai {
        Some(ai) => Ok(ai),
        None => Err(ConfigMissing::Section),
    }
}

/// What the user is told of something missing.
pub open spec fn missing_message(missing: ConfigMissing) -> Seq<char> {
    match missing {
        ConfigMissing::Section => "ai section is not configured, abort"@,
        ConfigMissing::Url => "Missing 'url' in AI config"@,
        ConfigMissing::Model => "Missing 'model' in AI config"@,
        ConfigMissing::ApiKey => "Missing 'apikey' in AI config"@,
        ConfigMissing::Language => "Missing 'language' in AI config"@,
    }
}

impl ConfigMissing {
    /// What the user is told of this.
    pub fn message(&self) -> (text: String)
        ensures
            text@ == missing_message(*self),
    {
        match self {
            ConfigMissing::Section => String::from_str("ai section is not configured, abort"),
            ConfigMissing::Url => String::from_str("Missing 'url' in AI config"),
            ConfigMissing::Model => String::from_str("Missing 'model' in AI config"),
            ConfigMissing::ApiKey => String::from_str("Missing 'apikey' in AI config"),
            ConfigMissing::Language => String::from_str("Missing 'language' in AI config"),
        }
    }
}

/// The `ai` section with every field that a chat needs in place.
#[derive(Debug, Clone, PartialEq, Eq)]
pub struct ValidatedAi {
    pub url: String,
    pub model_name: String,
    pub api_key: String,
    pub language: String,
}

/// What a [`ValidatedAi`] holds, with every text as the sequence of its characters.
pub struct ValidatedAiView {
    pub url: Seq<char>,
    pub model_name: Seq<char>,
    pub api_key: Seq<char>,
    pub language: Seq<char>,
}

impl View for ValidatedAi {
    type V = ValidatedAiView;

    open spec fn view(&self) -> ValidatedAiView {
        ValidatedAiView {
            url: self.url@,
            model_name: self.model_name@,
            api_key: self.api_key@,
            language: self.language@,
        }
    }
}

/// The settings for a chat, or the first thing that is missing: the
/// section, then the address, the model, the key and the language, in this
/// order. A field may be empty, but it must be there.
pub open spec fn validated_ai(settings: Settings) -> Result<ValidatedAiView, ConfigMissing> {
    match settings.ai {
        None => Err(ConfigMissing::Section),
        Some(ai) => match (ai.url, ai.model, ai.apikey, ai.language) {
            (None, _, _, _) => Err(ConfigMissing::Url),
            (_, None, _, _) => Err(ConfigMissing::Model),
            (_, _, None, _) => Err(ConfigMissing::ApiKey),
            (_, _, _, None) => Err(ConfigMissing::Language),
            (Some(url), Some(model), Some(apikey), Some(language)) => Ok(
                ValidatedAiView {
                    url: url@,
                    model_name: model@,
                    api_key: apikey@,
                    language: language@,
                },
            ),
        },
    }
}

/// Reads the settings for a chat out of the configuration.
pub fn get_validated_ai_config(settings: &Settings) -> (validated: Result<
    ValidatedAi,
    ConfigMissing,
>)
    ensures
        (match validated_ai(*settings) {
            Ok(ai) => validated is Ok && validated->Ok_0@ == ai,
            Err(missing) => validated == Err::<ValidatedAi, ConfigMissing>(missing),
        }),
{
    let ai = match &settings.ai {
        Some(ai) => ai,
        None => {
            return Err(ConfigMissing::Section);
        },
    };
    let url = match &ai.url {
        Some(url) => url.clone(),
        None => {
            return Err(ConfigMissing::Url);
        },
    };
    let model_name = match &ai.model {
        Some(model) => model.clone(),
        None => {
            return Err(ConfigMissing::Model);
        },
    };
    let api_key = match &ai.apikey {
        Some(apikey) => apikey.clone(),
        None => {
            return Err(ConfigMissing::ApiKey);
        },
    };
    let language = match &ai.language {
        Some(language) => language.clone(),
        None => {
            return Err(ConfigMissing::Language);
        },
    };
    Ok(ValidatedAi { url, model_name, api_key, language })
}

} // verus!
