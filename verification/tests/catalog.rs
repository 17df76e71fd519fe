//! The model catalogues, the model store, snippets and the settings
//! record, on concrete values.

use wakascribe::engines::ParakeetEngine;
use wakascribe::models::{join_path, ModelManager};
use wakascribe::snippets::{add_snippet, remove_snippet, update_snippet, Snippet, SnippetsData};
use wakascribe::types::{
    default_hotkey_translate, default_hotkey_voice_action, default_translation_language,
    default_true, AppSettings, DictationMode, EngineType, LlmMode, LlmProvider,
    LocalLlmModel, ModelSize, ParakeetModelSize, VoskLanguage,
};

#[test]
fn whisper_model_catalogue_values() {
    assert_eq!(ModelSize::Tiny.file_name(), "ggml-tiny.bin");
    assert_eq!(ModelSize::Medium.file_name(), "ggml-medium.bin");
    assert_eq!(
        ModelSize::Small.download_url(),
        "https://huggingface.co/ggerganov/whisper.cpp/resolve/main/ggml-small.bin"
    );
    assert_eq!(ModelSize::Tiny.size_bytes(), 75_000_000);
    assert_eq!(ModelSize::Medium.display_name(), "Medium (1.5 GB)");
    assert_eq!(ModelSize::default(), ModelSize::Tiny);
}

#[test]
fn local_llm_catalogue_values() {
    assert_eq!(LocalLlmModel::Phi3Mini.file_name(), "Phi-3-mini-4k-instruct-Q4_K_M.gguf");
    assert_eq!(LocalLlmModel::SmolLM2_360M.size_bytes(), 386_000_000);
    assert_eq!(
        LocalLlmModel::Qwen2_5_3B.download_url(),
        "https://huggingface.co/Qwen/Qwen2.5-3B-Instruct-GGUF/resolve/main/qwen2.5-3b-instruct-q4_k_m.gguf"
    );
    assert_eq!(LocalLlmModel::default(), LocalLlmModel::Phi3Mini);
    let prompt = LocalLlmModel::Phi3Mini.format_prompt("resume", "le texte");
    assert_eq!(
        prompt,
        "<|user|>\nResume ce texte en 2-3 phrases concises en francais:\n\nle texte<|end|>\n<|assistant|>\n"
    );
}

#[test]
fn engine_and_parakeet_names() {
    assert_eq!(EngineType::Whisper.display_name(), "Whisper");
    assert_eq!(EngineType::Vosk.display_name(), "Vosk");
    assert_eq!(EngineType::default(), EngineType::Whisper);
    assert_eq!(ParakeetModelSize::Tdt06bV3.model_name(), "parakeet-tdt-0.6b-v3");
    assert_eq!(
        ParakeetModelSize::Tdt06bV3.display_name(),
        "Parakeet TDT 0.6B v3 (Multilingual)"
    );
}

#[test]
fn vosk_catalogue_values() {
    assert_eq!(VoskLanguage::Fr.model_name(), "vosk-model-small-fr-0.22");
    assert_eq!(
        VoskLanguage::Fr.download_url(),
        "https://alphacephei.com/vosk/models/vosk-model-small-fr-0.22.zip"
    );
    assert_eq!(VoskLanguage::De.display_name(), "Deutsch");
    assert_eq!(VoskLanguage::from_language_code("FR"), Some(VoskLanguage::Fr));
    assert_eq!(VoskLanguage::from_language_code("english"), Some(VoskLanguage::En));
    assert_eq!(VoskLanguage::from_language_code("Catalan"), Some(VoskLanguage::Ca));
    assert_eq!(VoskLanguage::from_language_code("xx"), None);
}

#[test]
fn settings_defaults() {
    let s = AppSettings::default();
    assert_eq!(s.hotkey_push_to_talk, "Control+Space");
    assert_eq!(s.transcription_language, "fr");
    assert_eq!(s.whisper_model, ModelSize::Tiny);
    assert_eq!(s.llm_mode, LlmMode::Off);
    assert_eq!(s.llm_provider, LlmProvider::Groq);
    assert_eq!(s.dictation_mode, DictationMode::General);
    assert!(s.streaming_enabled);
    assert!(s.voice_commands_enabled);
    assert!(!s.llm_enabled);
    assert!(s.microphone_id.is_none());
    assert!(default_true());
    assert_eq!(default_translation_language(), "en");
    assert_eq!(default_hotkey_translate(), "Control+Alt+T");
    assert_eq!(default_hotkey_voice_action(), "Control+Alt+A");
}

#[test]
fn model_store_paths_and_availability() {
    assert_eq!(join_path("base", "file.bin"), "base/file.bin");
    let mm = ModelManager::new("/nonexistent-wakascribe-test".to_string(), None);
    assert_eq!(mm.get_model_path(ModelSize::Tiny), None);
    assert!(!mm.is_model_available(ModelSize::Small));
    assert!(mm.available_models().is_empty());
    assert!(mm.available_vosk_models().is_empty());
    assert!(mm.available_parakeet_models().is_empty());
    assert_eq!(mm.get_vosk_model_path(VoskLanguage::Fr), None);
    assert_eq!(mm.get_parakeet_model_path(ParakeetModelSize::Tdt06bV3), None);
    let infos = mm.model_infos();
    assert_eq!(infos.len(), 3);
    assert_eq!(infos[0].size, ModelSize::Tiny);
    assert_eq!(infos[1].display_name, "Small (466 MB)");
    assert_eq!(infos[2].size_bytes, 1_500_000_000);
    assert!(!infos[0].available);
}

#[test]
fn parakeet_engine_load_checks_the_path() {
    let missing = ParakeetEngine::new("/nonexistent-wakascribe-model", ParakeetModelSize::Tdt06bV3);
    match missing {
        Err(m) => assert_eq!(m, "Parakeet model not found: /nonexistent-wakascribe-model"),
        Ok(_) => panic!("a missing model must not load"),
    }
    // the root directory always exists, so loading from it succeeds
    let mut engine = ParakeetEngine::new("/", ParakeetModelSize::Tdt06bV3).unwrap();
    assert_eq!(engine.model_size(), ParakeetModelSize::Tdt06bV3);
    engine.set_language(Some("fr".to_string()));
}

#[test]
fn snippet_duplicate_ids() {
    let mut data = SnippetsData::default();
    for content in ["premier", "second"] {
        add_snippet(&mut data, Snippet {
            id: "dup".to_string(),
            trigger: "t".to_string(),
            content: content.to_string(),
        });
    }
    // an update replaces only the first snippet carrying the identifier
    let r = update_snippet(&mut data, "dup", Snippet {
        id: "dup".to_string(),
        trigger: "t".to_string(),
        content: "remplac\u{e9}".to_string(),
    });
    assert!(r.is_ok());
    assert_eq!(data.snippets[0].content, "remplac\u{e9}");
    assert_eq!(data.snippets[1].content, "second");
    // a removal drops every snippet carrying the identifier
    remove_snippet(&mut data, "dup");
    assert!(data.snippets.is_empty());
}

#[test]
fn snippet_edits() {
    let mut data = SnippetsData::default();
    add_snippet(&mut data, Snippet {
        id: "1".to_string(),
        trigger: "sig".to_string(),
        content: "Cordialement".to_string(),
    });
    add_snippet(&mut data, Snippet {
        id: "2".to_string(),
        trigger: "hi".to_string(),
        content: "Bonjour".to_string(),
    });
    assert_eq!(data.snippets.len(), 2);

    let updated = update_snippet(&mut data, "2", Snippet {
        id: "2".to_string(),
        trigger: "hello".to_string(),
        content: "Bonjour !".to_string(),
    });
    assert!(updated.is_ok());
    assert_eq!(data.snippets[1].trigger, "hello");

    let missing = update_snippet(&mut data, "9", Snippet {
        id: "9".to_string(),
        trigger: "x".to_string(),
        content: "y".to_string(),
    });
    assert_eq!(missing.unwrap_err(), "Snippet not found");
    assert_eq!(data.snippets.len(), 2);

    remove_snippet(&mut data, "1");
    assert_eq!(data.snippets.len(), 1);
    assert_eq!(data.snippets[0].id, "2");
    remove_snippet(&mut data, "no-such-id");
    assert_eq!(data.snippets.len(), 1);
}
