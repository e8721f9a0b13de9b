use handy::transcription::{
    base_language_code, corrects_custom_words, detected_evidence, empty_audio_transcript, language_hint,
    needs_text_detection, panic_payload_message, remote_transcription_config,
    resolve_output_language_evidence, AppSettings, OutputLanguageEvidence, SAMPLE_RATE,
};

#[test]
fn unsupported_explicit_language_uses_model_fallback_as_evidence() {
    let settings = AppSettings {
        selected_language: "pt".to_string(),
        ..Default::default()
    };

    let evidence = resolve_output_language_evidence(&settings, Some("en"));

    assert_eq!(
        evidence,
        OutputLanguageEvidence::ModelConstrained("en".to_string())
    );
}

#[test]
fn language_hint_resolves_auto_to_none() {
    let mut settings = AppSettings {
        selected_language: "auto".to_string(),
        ..Default::default()
    };
    assert_eq!(language_hint(&settings), None);

    settings.selected_language = "de".to_string();
    assert_eq!(language_hint(&settings).as_deref(), Some("de"));

    settings.selected_language = String::new();
    assert_eq!(language_hint(&settings), None);
}

#[test]
fn regional_selection_counts_as_user_selected() {
    let settings = AppSettings {
        app_language: "en".to_string(),
        selected_language: "pt-BR".to_string(),
        ..Default::default()
    };
    assert_eq!(
        resolve_output_language_evidence(&settings, Some("pt")),
        OutputLanguageEvidence::UserSelected("pt".to_string())
    );
}

#[test]
fn auto_selection_without_hint_is_unknown() {
    let settings = AppSettings {
        selected_language: "auto".to_string(),
        ..Default::default()
    };
    assert_eq!(resolve_output_language_evidence(&settings, None), OutputLanguageEvidence::Unknown);
    assert_eq!(resolve_output_language_evidence(&settings, Some("auto")), OutputLanguageEvidence::Unknown);
    assert_eq!(resolve_output_language_evidence(&settings, Some("")), OutputLanguageEvidence::Unknown);
    assert_eq!(
        resolve_output_language_evidence(&settings, Some("en")),
        OutputLanguageEvidence::ModelConstrained("en".to_string())
    );
}

#[test]
fn base_codes() {
    assert_eq!(base_language_code("pt-BR"), "pt");
    assert_eq!(base_language_code("zh_Hant"), "zh");
    assert_eq!(base_language_code("de"), "de");
    assert_eq!(base_language_code(""), "");
    assert_eq!(base_language_code("-x"), "");
}

#[test]
fn remote_config_from_settings() {
    let mut settings = AppSettings {
        selected_language: "auto".to_string(),
        custom_words: vec!["Verus".to_string(), "Kubernetes".to_string()],
        remote_transcription_enabled: true,
        remote_transcription_base_url: "http://dgxp:3001".to_string(),
        remote_transcription_api_key: "k".to_string(),
        remote_transcription_model: "asr".to_string(),
        ..Default::default()
    };
    let cfg = remote_transcription_config(&settings).unwrap();
    assert_eq!(cfg.base_url, "http://dgxp:3001");
    assert_eq!(cfg.api_key, "k");
    assert_eq!(cfg.model, "asr");
    assert_eq!(cfg.language, None);
    assert_eq!(cfg.prompt.as_deref(), Some("Verus, Kubernetes"));

    settings.custom_words.clear();
    settings.selected_language = "fr".to_string();
    let cfg = remote_transcription_config(&settings).unwrap();
    assert_eq!(cfg.prompt, None);
    assert_eq!(cfg.language.as_deref(), Some("fr"));

    settings.remote_transcription_enabled = false;
    assert_eq!(
        remote_transcription_config(&settings).unwrap_err(),
        "sttts: remote transcription disabled — enable it in Settings → General → Remote Transcription"
    );
}

#[test]
fn post_processing_decisions() {
    let mut settings = AppSettings {
        filler_word_removal_enabled: true,
        ..Default::default()
    };
    assert!(!corrects_custom_words(&settings, false));
    settings.custom_words = vec!["Verus".to_string()];
    assert!(corrects_custom_words(&settings, false));
    assert!(!corrects_custom_words(&settings, true));

    assert!(needs_text_detection(&OutputLanguageEvidence::Unknown, &settings));
    assert!(!needs_text_detection(&OutputLanguageEvidence::UserSelected("en".to_string()), &settings));
    settings.custom_filler_words = Some(vec!["like".to_string()]);
    assert!(!needs_text_detection(&OutputLanguageEvidence::Unknown, &settings));
    settings.custom_filler_words = None;
    settings.filler_word_removal_enabled = false;
    assert!(!needs_text_detection(&OutputLanguageEvidence::Unknown, &settings));

    assert_eq!(
        detected_evidence(Some("en".to_string())),
        OutputLanguageEvidence::TextDetected("en".to_string())
    );
    assert_eq!(detected_evidence(None), OutputLanguageEvidence::Unknown);
}

#[test]
fn panic_messages() {
    let owned = "boom".to_string();
    assert_eq!(panic_payload_message(Some("static"), None), "static");
    assert_eq!(panic_payload_message(None, Some(&owned)), "boom");
    assert_eq!(panic_payload_message(None, None), "unknown panic");
    assert_eq!(SAMPLE_RATE, 16_000);
}

#[test]
fn default_settings_remove_fillers_and_consult_detection() {
    let settings = AppSettings::default();
    assert!(settings.filler_word_removal_enabled);
    assert!(needs_text_detection(&OutputLanguageEvidence::Unknown, &settings));
}

#[test]
fn empty_audio_is_answered_with_an_empty_transcript() {
    assert_eq!(empty_audio_transcript(0), Some(String::new()));
    assert_eq!(empty_audio_transcript(1), None);
    assert_eq!(empty_audio_transcript(16_000), None);
}
