//! The session state machine, the streaming decisions and reconciliation,
//! hotkey parsing and dispatch, and the remote-completion helpers.

use wakascribe::hotkeys::{parse_hotkey, Hotkey, HotkeyModifiers, KeyCode};
use wakascribe::llm::{
    classify_http_status, translation_language_name, translation_system_prompt,
    voice_action_user_prompt, GroqError, StatusClass,
};
use wakascribe::session::{identify_shortcut, DictationSession, HotkeyIdentity, SessionPhase};
use wakascribe::streaming::{
    finisher_delta, stop_decision, streaming_tick, FinalDelivery, StopVerdict,
    StreamingTextState, TickAction, MIN_COMMAND_MS, MIN_DICTATION_MS,
    STREAMING_CHUNK_SAMPLES,
};

#[test]
fn repeated_key_down_starts_once() {
    let mut s = DictationSession::new();
    assert!(s.key_down());
    assert_eq!(s.phase(), SessionPhase::Recording);
    // a key-repeat event changes nothing
    assert!(!s.key_down());
    assert_eq!(s.phase(), SessionPhase::Recording);
    assert!(s.key_up());
    assert_eq!(s.phase(), SessionPhase::Processing);
    s.finish();
    assert_eq!(s.phase(), SessionPhase::Idle);
}

#[test]
fn key_up_without_key_down_is_a_no_op() {
    let mut s = DictationSession::new();
    assert!(!s.key_up());
    assert_eq!(s.phase(), SessionPhase::Idle);
    assert!(!s.is_active());
}

#[test]
fn dispatcher_picks_the_first_matching_flow() {
    let ptt = parse_hotkey("Control+Space").unwrap();
    let translate = parse_hotkey("Control+Alt+T").unwrap();
    let voice = parse_hotkey("Control+Alt+A").unwrap();
    let ptt_reg = Some(ptt);
    let translate_reg = Some(translate);
    let voice_reg = Some(voice);
    assert_eq!(
        identify_shortcut(&ptt, &ptt_reg, &translate_reg, &voice_reg),
        Some(HotkeyIdentity::PushToTalk)
    );
    assert_eq!(
        identify_shortcut(&translate, &ptt_reg, &translate_reg, &voice_reg),
        Some(HotkeyIdentity::Translate)
    );
    assert_eq!(
        identify_shortcut(&voice, &ptt_reg, &translate_reg, &voice_reg),
        Some(HotkeyIdentity::VoiceAction)
    );
    let other = parse_hotkey("F9").unwrap();
    assert_eq!(identify_shortcut(&other, &ptt_reg, &translate_reg, &voice_reg), None);
}

#[test]
fn parse_hotkey_reads_modifiers_and_key() {
    let hk = parse_hotkey("Control+Shift+Space").unwrap();
    assert_eq!(
        hk,
        Hotkey {
            modifiers: HotkeyModifiers { control: true, meta: false, alt: false, shift: true },
            code: KeyCode::Space,
        }
    );
    let q = parse_hotkey("Ctrl+Q").unwrap();
    assert_eq!(q.code, KeyCode::KeyQ);
    assert!(q.modifiers.control);
    let meta = parse_hotkey("cmd+a").unwrap();
    assert!(meta.modifiers.meta);
    assert_eq!(meta.code, KeyCode::KeyA);
    let bare = parse_hotkey("F5").unwrap();
    assert_eq!(bare.code, KeyCode::F5);
    assert_eq!(
        bare.modifiers,
        HotkeyModifiers { control: false, meta: false, alt: false, shift: false }
    );
}

#[test]
fn parse_hotkey_without_a_key_is_none() {
    assert_eq!(parse_hotkey("Control+Shift"), None);
    assert_eq!(parse_hotkey("garbage"), None);
    assert_eq!(parse_hotkey(""), None);
}

#[test]
fn streaming_tick_waits_for_a_full_fresh_chunk() {
    assert_eq!(streaming_tick(1000, 0, STREAMING_CHUNK_SAMPLES), TickAction::Wait);
    assert_eq!(
        streaming_tick(STREAMING_CHUNK_SAMPLES, 0, STREAMING_CHUNK_SAMPLES),
        TickAction::Transcribe { chunk_start: 0 }
    );
    // already-processed samples do not count as fresh
    assert_eq!(
        streaming_tick(STREAMING_CHUNK_SAMPLES + 10, 20, STREAMING_CHUNK_SAMPLES),
        TickAction::Wait
    );
    // the window is the chunk-sized tail, not the whole buffer
    assert_eq!(
        streaming_tick(3 * STREAMING_CHUNK_SAMPLES, 0, STREAMING_CHUNK_SAMPLES),
        TickAction::Transcribe { chunk_start: 2 * STREAMING_CHUNK_SAMPLES }
    );
}

#[test]
fn stop_decision_applies_the_duration_floor() {
    assert_eq!(stop_decision(0, 16000, MIN_COMMAND_MS), StopVerdict::Empty);
    // a third of a second: enough for dictation, too short for a command
    assert_eq!(stop_decision(5333, 16000, MIN_DICTATION_MS), StopVerdict::Transcribe);
    assert_eq!(stop_decision(5333, 16000, MIN_COMMAND_MS), StopVerdict::TooShort);
    // the boundary itself transcribes
    assert_eq!(stop_decision(4800, 16000, MIN_DICTATION_MS), StopVerdict::Transcribe);
    assert_eq!(stop_decision(4799, 16000, MIN_DICTATION_MS), StopVerdict::TooShort);
}

#[test]
fn reconcile_emits_only_the_unsent_suffix() {
    let mut st = StreamingTextState::new();
    assert_eq!(st.reconcile("bonjour"), Some("bonjour".to_string()));
    assert_eq!(st.reconcile("bonjour tout le monde"), Some(" tout le monde".to_string()));
    // the engine revised its hypothesis: resynchronize, type nothing
    assert_eq!(st.reconcile("bonsoir"), None);
    // the new text is now authoritative
    assert_eq!(st.reconcile("bonsoir les amis"), Some(" les amis".to_string()));
    st.reset();
    assert_eq!(st.reconcile("x"), Some("x".to_string()));
}

#[test]
fn finisher_delivers_exactly_the_remaining_suffix() {
    // no streaming: everything is pasted at once
    assert_eq!(finisher_delta("", "tout le texte"), FinalDelivery::PasteAll);
    // streamed prefix: exactly the suffix is typed
    assert_eq!(
        finisher_delta("bonjour", "bonjour tout le monde"),
        FinalDelivery::TypeDelta(" tout le monde".to_string())
    );
    // nothing new
    assert_eq!(finisher_delta("bonjour", "bonjour"), FinalDelivery::Nothing);
    // the final transcript does not extend what was typed
    assert_eq!(finisher_delta("bonjour", "bonsoir"), FinalDelivery::Nothing);
}

#[test]
fn http_status_classification() {
    assert_eq!(classify_http_status(200), StatusClass::Success);
    assert_eq!(classify_http_status(204), StatusClass::Success);
    assert_eq!(classify_http_status(401), StatusClass::InvalidKey);
    assert_eq!(classify_http_status(429), StatusClass::RateLimited);
    assert_eq!(classify_http_status(500), StatusClass::OtherFailure);
    assert_eq!(classify_http_status(302), StatusClass::OtherFailure);
}

#[test]
fn groq_error_messages() {
    assert_eq!(GroqError::InvalidApiKey.message(), "Invalid API key");
    assert_eq!(GroqError::RateLimit.message(), "Rate limit exceeded");
    assert_eq!(GroqError::Timeout.message(), "Request timeout");
    assert_eq!(
        GroqError::NetworkError("down".to_string()).message(),
        "Network error: down"
    );
    assert_eq!(
        GroqError::ParseError("no choices".to_string()).message(),
        "Parse error: no choices"
    );
}

#[test]
fn translation_prompt_names_the_language() {
    assert_eq!(translation_language_name("fr"), "French");
    assert_eq!(translation_language_name("ja"), "Japanese");
    assert_eq!(translation_language_name("xx"), "xx");
    let prompt = translation_system_prompt("de");
    assert_eq!(
        prompt,
        "You are a professional translator. Translate the following text to German. \
         Only output the translation, nothing else. Preserve the original formatting, \
         punctuation and tone. If the text is already in German, return it unchanged."
    );
}

#[test]
fn voice_action_prompt_carries_selection_and_instruction() {
    assert_eq!(voice_action_user_prompt("", "mets en gras"), "mets en gras");
    assert_eq!(
        voice_action_user_prompt("le texte choisi", "traduis"),
        "Texte:\nle texte choisi\n\nInstruction: traduis"
    );
}
