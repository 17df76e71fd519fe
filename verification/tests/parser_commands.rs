//! Edit and contextual command extraction through the voice-command
//! parser.

use wakascribe::parser::{parse, Action};
use wakascribe::types::DictationMode;

#[test]
fn test_edit_command_efface() {
    let result = parse("texte commande efface", DictationMode::General);
    assert_eq!(result.text, "texte");
    assert_eq!(result.actions, vec![Action::Delete]);
}

#[test]
fn test_edit_command_annuler() {
    let result = parse("erreur commande annuler", DictationMode::General);
    assert_eq!(result.text, "erreur");
    assert_eq!(result.actions, vec![Action::Undo]);
}

#[test]
fn test_edit_command_tout_effacer() {
    let result = parse("commande tout effacer", DictationMode::General);
    assert_eq!(result.text, "");
    assert_eq!(result.actions, vec![Action::ClearAll]);
}

#[test]
fn test_edit_command_majuscules() {
    let result = parse("titre commande majuscules", DictationMode::General);
    assert_eq!(result.text, "titre");
    assert_eq!(result.actions, vec![Action::Uppercase]);
}

#[test]
fn test_edit_command_copier() {
    let result = parse("texte important commande copier", DictationMode::General);
    assert_eq!(result.text, "texte important");
    assert_eq!(result.actions, vec![Action::Copy]);
}

#[test]
fn test_edit_command_stop() {
    let result = parse("fini commande stop", DictationMode::General);
    assert_eq!(result.text, "fini");
    assert_eq!(result.actions, vec![Action::Stop]);
}

#[test]
fn test_email_mode_signature() {
    let result = parse("Cordialement commande signature", DictationMode::Email);
    assert_eq!(result.text, "Cordialement");
    assert_eq!(result.actions, vec![Action::InsertSignature]);
}

#[test]
fn test_email_mode_formule_politesse() {
    let result = parse("commande formule politesse", DictationMode::Email);
    assert_eq!(result.text, "");
    assert_eq!(result.actions, vec![Action::InsertGreeting]);
}

#[test]
fn test_email_commands_not_in_general_mode() {
    let result = parse("commande signature", DictationMode::General);
    assert_eq!(result.text, "commande signature");
    assert!(result.actions.is_empty());
}

#[test]
fn test_code_mode_fonction() {
    let result = parse("commande fonction", DictationMode::Code);
    assert_eq!(result.text, "");
    assert_eq!(result.actions, vec![Action::InsertFunction]);
}

#[test]
fn test_code_mode_commentaire() {
    let result = parse("commande commentaire", DictationMode::Code);
    assert_eq!(result.text, "");
    assert_eq!(result.actions, vec![Action::InsertComment]);
}

#[test]
fn test_notes_mode_puce() {
    let result = parse("commande puce premier \u{e9}l\u{e9}ment", DictationMode::Notes);
    assert_eq!(result.text, "premier \u{e9}l\u{e9}ment");
    assert_eq!(result.actions, vec![Action::InsertBullet]);
}

#[test]
fn test_notes_mode_titre() {
    let result = parse("commande titre Introduction", DictationMode::Notes);
    assert_eq!(result.text, "Introduction");
    assert_eq!(result.actions, vec![Action::InsertTitle]);
}

#[test]
fn test_multiple_punctuation_and_command() {
    let result = parse(
        "Bonjour point Comment \u{e7}a va point d'interrogation commande copier",
        DictationMode::General,
    );
    assert_eq!(result.text, "Bonjour. Comment \u{e7}a va?");
    assert_eq!(result.actions, vec![Action::Copy]);
}
