use companion::settings::{
    Settings, WheelState, DEFAULT_BACKGROUND_PROMPT_MODEL_ID, DEFAULT_TRANSCRIPTION_MODEL_ID,
};

fn wheels() -> WheelState {
    WheelState { positions: vec![3, 0, 7], active_index: 1 }
}

#[test]
fn the_default_models_are_named() {
    assert_eq!(DEFAULT_TRANSCRIPTION_MODEL_ID, "hf.co/ggml-org/ultravox-v0_5-llama-3_1-8b-gguf");
    assert_eq!(DEFAULT_BACKGROUND_PROMPT_MODEL_ID, "hf.co/unsloth/gemma-3n-e2b-it-gguf:q8_k_xl");
}

#[test]
fn default_settings_name_nothing() {
    assert_eq!(
        Settings::default(),
        Settings { wheels: None, nanobanana_api_key: None, model_transcription: None, model_prompt: None }
    );
}

#[test]
fn the_required_models_are_the_transcription_and_the_prompt_model() {
    let settings = Settings {
        wheels: None,
        nanobanana_api_key: None,
        model_transcription: Some("t".to_string()),
        model_prompt: Some("p".to_string()),
    };
    assert_eq!(settings.required_models(), vec!["t".to_string(), "p".to_string()]);
}

#[test]
fn a_model_that_is_not_set_is_required_under_the_empty_name() {
    assert_eq!(Settings::default().required_models(), vec![String::new(), String::new()]);
    let half = Settings { model_prompt: Some("p".to_string()), ..Settings::default() };
    assert_eq!(half.required_models(), vec![String::new(), "p".to_string()]);
}

#[test]
fn missing_models_are_filled_with_the_defaults() {
    let (filled, needs_save) = Settings::default().with_model_defaults();
    assert!(needs_save);
    assert_eq!(
        filled,
        Settings {
            wheels: None,
            nanobanana_api_key: None,
            model_transcription: Some(DEFAULT_TRANSCRIPTION_MODEL_ID.to_string()),
            model_prompt: Some(DEFAULT_BACKGROUND_PROMPT_MODEL_ID.to_string()),
        }
    );
}

#[test]
fn models_that_are_set_are_kept() {
    let settings = Settings {
        wheels: Some(wheels()),
        nanobanana_api_key: Some("key".to_string()),
        model_transcription: Some("mine".to_string()),
        model_prompt: None,
    };
    let (filled, needs_save) = settings.with_model_defaults();
    assert!(needs_save);
    assert_eq!(
        filled,
        Settings {
            wheels: Some(wheels()),
            nanobanana_api_key: Some("key".to_string()),
            model_transcription: Some("mine".to_string()),
            model_prompt: Some(DEFAULT_BACKGROUND_PROMPT_MODEL_ID.to_string()),
        }
    );
}

#[test]
fn complete_settings_need_no_save() {
    let settings = Settings {
        wheels: None,
        nanobanana_api_key: None,
        model_transcription: Some(String::new()),
        model_prompt: Some("p".to_string()),
    };
    let (filled, needs_save) = settings.with_model_defaults();
    assert!(!needs_save);
    assert_eq!(filled.model_transcription, Some(String::new()));
    assert_eq!(filled.model_prompt, Some("p".to_string()));
}

#[test]
fn first_settings_take_the_wheels_of_an_earlier_installation() {
    assert_eq!(
        Settings::initial(Some(wheels())),
        Settings {
            wheels: Some(wheels()),
            nanobanana_api_key: None,
            model_transcription: Some(DEFAULT_TRANSCRIPTION_MODEL_ID.to_string()),
            model_prompt: Some(DEFAULT_BACKGROUND_PROMPT_MODEL_ID.to_string()),
        }
    );
    assert_eq!(Settings::initial(None).wheels, None);
}
