//! The settings that the run reads: which models are required.

use vstd::prelude::*;
use vstd::string::StringExecFns;

verus! {

/// The model that transcribes speech, unless the settings name another.
pub const DEFAULT_TRANSCRIPTION_MODEL_ID: &'static str =
    "hf.co/ggml-org/ultravox-v0_5-llama-3_1-8b-gguf";

/// The model that writes background prompts, unless the settings name
/// another.
pub const DEFAULT_BACKGROUND_PROMPT_MODEL_ID: &'static str =
    "hf.co/unsloth/gemma-3n-e2b-it-gguf:q8_k_xl";

/// The positions of the wheels in the front end.
#[derive(Debug, PartialEq, Eq)]
pub struct WheelState {
    pub positions: Vec<usize>,
    pub active_index: usize,
}

/// The settings as they are kept.
#[derive(Debug, PartialEq, Eq)]
pub struct Settings {
    pub wheels: Option<WheelState>,
    pub nanobanana_api_key: Option<String>,
    pub model_transcription: Option<String>,
    pub model_prompt: Option<String>,
}

/// The text of an optional setting; empty where it is not set.
pub open spec fn text_or_empty(setting: Option<String>) -> Seq<char> {
    match setting {
        Some(text) => text@,
        None => Seq::empty(),
    }
}

/// The text of an optional setting, or `fallback` where it is not set.
pub open spec fn text_or(setting: Option<String>, fallback: Seq<char>) -> Seq<char> {
    match setting {
        Some(text) => text@,
        None => fallback,
    }
}

impl Default for Settings {
    /// Settings in which nothing is set.
    fn default() -> (settings: Settings)
        ensures
            settings.wheels is None,
            settings.nanobanana_api_key is None,
            settings.model_transcription is None,
            settings.model_prompt is None,
    {
        Settings {
            wheels: None,
            nanobanana_api_key: None,
            model_transcription: None,
            model_prompt: None,
        }
    }
}

impl Settings {
    /// The models that must be available before the agent is operational:
    /// the transcription model, then the prompt model. A model that is not
    /// set is required under the empty name.
    pub fn required_models(&self) -> (required: Vec<String>)
        ensures
            required@.len() == 2,
            required@[0]@ == text_or_empty(self.model_transcription),
            required@[1]@ == text_or_empty(self.model_prompt),
    {
        let transcription = match &self.model_transcription {
            Some(model) => model.clone(),
            None => String::new(),
        };
        let prompt = match &self.model_prompt {
            Some(model) => model.clone(),
            None => String::new(),
        };
        let mut required: Vec<String> = Vec::new();
        required.push(transcription);
        required.push(prompt);
        required
    }

    /// Fills in the default for each model that the settings do not name,
    /// and says whether anything was filled in, so that the settings need to
    /// be saved.
    pub fn with_model_defaults(self) -> (filled: (Settings, bool))
        ensures
            filled.0.wheels == self.wheels,
            filled.0.nanobanana_api_key == self.nanobanana_api_key,
            filled.0.model_transcription is Some,
            filled.0.model_prompt is Some,
            filled.0.model_transcription->0@ == text_or(
                self.model_transcription,
                DEFAULT_TRANSCRIPTION_MODEL_ID@,
            ),
            filled.0.model_prompt->0@ == text_or(
                self.model_prompt,
                DEFAULT_BACKGROUND_PROMPT_MODEL_ID@,
            ),
            filled.1 == (self.model_transcription is None || self.model_prompt is None),
    {
        let Settings { wheels, nanobanana_api_key, model_transcription, model_prompt } = self;
        let needs_save = model_transcription.is_none() || model_prompt.is_none();
        let model_transcription = match model_transcription {
            Some(model) => model,
            None => String::from_str(DEFAULT_TRANSCRIPTION_MODEL_ID),
        };
        let model_prompt = match model_prompt {
            Some(model) => model,
            None => String::from_str(DEFAULT_BACKGROUND_PROMPT_MODEL_ID),
        };
        (
            Settings {
                wheels,
                nanobanana_api_key,
                model_transcription: Some(model_transcription),
                model_prompt: Some(model_prompt),
            },
            needs_save,
        )
    }

    /// The settings to begin with where none were kept yet: the wheels of an
    /// earlier installation where there are any, and the default models.
    pub fn initial(legacy_wheels: Option<WheelState>) -> (settings: Settings)
        ensures
            settings.wheels == legacy_wheels,
            settings.nanobanana_api_key is None,
            settings.model_transcription is Some,
            settings.model_prompt is Some,
            settings.model_transcription->0@ == DEFAULT_TRANSCRIPTION_MODEL_ID@,
            settings.model_prompt->0@ == DEFAULT_BACKGROUND_PROMPT_MODEL_ID@,
    {
        Settings {
            wheels: legacy_wheels,
            nanobanana_api_key: None,
            model_transcription: Some(String::from_str(DEFAULT_TRANSCRIPTION_MODEL_ID)),
            model_prompt: Some(String::from_str(DEFAULT_BACKGROUND_PROMPT_MODEL_ID)),
        }
    }
}

} // verus!
