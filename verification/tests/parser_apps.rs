//! Application-open command extraction through the voice-command parser.

use wakascribe::parser::{parse, Action};
use wakascribe::types::DictationMode;

#[test]
fn test_open_app_ouvre() {
    let result = parse("ouvre Safari", DictationMode::General);
    assert_eq!(result.text, "");
    assert_eq!(result.actions, vec![Action::OpenApp("Safari".to_string())]);
}

#[test]
fn test_open_app_lance() {
    let result = parse("lance Spotify", DictationMode::General);
    assert_eq!(result.text, "");
    assert_eq!(result.actions, vec![Action::OpenApp("Spotify".to_string())]);
}

#[test]
fn test_open_app_mets() {
    let result = parse("mets Spotify", DictationMode::General);
    assert_eq!(result.text, "");
    assert_eq!(result.actions, vec![Action::OpenApp("Spotify".to_string())]);
}

#[test]
fn test_open_app_with_surrounding_text() {
    let result = parse("je veux ouvre Safari merci", DictationMode::General);
    assert_eq!(result.text, "je veux merci");
    assert_eq!(result.actions, vec![Action::OpenApp("Safari".to_string())]);
}

#[test]
fn test_open_app_case_insensitive() {
    let result = parse("Ouvre safari", DictationMode::General);
    assert_eq!(result.actions, vec![Action::OpenApp("safari".to_string())]);
}

#[test]
fn test_open_app_demarre() {
    let result = parse("d\u{e9}marre Firefox", DictationMode::General);
    assert_eq!(result.text, "");
    assert_eq!(result.actions, vec![Action::OpenApp("Firefox".to_string())]);
}

#[test]
fn test_open_app_trigger_alone_no_crash() {
    let result = parse("ouvre", DictationMode::General);
    assert_eq!(result.text, "ouvre");
    assert!(result.actions.is_empty());
}
