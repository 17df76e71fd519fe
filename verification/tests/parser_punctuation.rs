//! Punctuation replacement through the voice-command parser.

use wakascribe::parser::parse;
use wakascribe::types::DictationMode;

#[test]
fn test_punctuation_point() {
    let result = parse("Bonjour point", DictationMode::General);
    assert_eq!(result.text, "Bonjour.");
    assert!(result.actions.is_empty());
}

#[test]
fn test_punctuation_virgule() {
    let result = parse("un virgule deux virgule trois", DictationMode::General);
    assert_eq!(result.text, "un, deux, trois");
    assert!(result.actions.is_empty());
}

#[test]
fn test_punctuation_question() {
    let result = parse("Comment allez-vous point d'interrogation", DictationMode::General);
    assert_eq!(result.text, "Comment allez-vous?");
    assert!(result.actions.is_empty());
}

#[test]
fn test_punctuation_exclamation() {
    let result = parse("Super point d'exclamation", DictationMode::General);
    assert_eq!(result.text, "Super!");
    assert!(result.actions.is_empty());
}

#[test]
fn test_punctuation_deux_points() {
    let result = parse("Voici deux points la liste", DictationMode::General);
    assert_eq!(result.text, "Voici: la liste");
    assert!(result.actions.is_empty());
}

#[test]
fn test_punctuation_point_virgule() {
    let result = parse("premier point virgule second", DictationMode::General);
    assert_eq!(result.text, "premier; second");
    assert!(result.actions.is_empty());
}

#[test]
fn test_punctuation_parentheses() {
    let result = parse(
        "texte ouvrir parenth\u{e8}se note fermer parenth\u{e8}se suite",
        DictationMode::General,
    );
    assert_eq!(result.text, "texte (note) suite");
    assert!(result.actions.is_empty());
}

#[test]
fn test_punctuation_guillemets() {
    let result = parse(
        "il a dit ouvrir guillemets bonjour fermer guillemets",
        DictationMode::General,
    );
    assert_eq!(result.text, "il a dit \u{ab}bonjour\u{bb}");
    assert!(result.actions.is_empty());
}

#[test]
fn test_punctuation_a_la_ligne() {
    let result = parse(
        "premi\u{e8}re ligne \u{e0} la ligne deuxi\u{e8}me ligne",
        DictationMode::General,
    );
    assert_eq!(result.text, "premi\u{e8}re ligne\ndeuxi\u{e8}me ligne");
    assert!(result.actions.is_empty());
}

#[test]
fn test_punctuation_nouveau_paragraphe() {
    let result = parse(
        "premier paragraphe nouveau paragraphe second paragraphe",
        DictationMode::General,
    );
    assert_eq!(result.text, "premier paragraphe\n\nsecond paragraphe");
    assert!(result.actions.is_empty());
}

#[test]
fn test_case_insensitive() {
    let result = parse(
        "Bonjour POINT comment allez-vous Point D'Interrogation",
        DictationMode::General,
    );
    assert_eq!(result.text, "Bonjour. comment allez-vous?");
    assert!(result.actions.is_empty());
}

#[test]
fn test_complex_sentence() {
    let result = parse(
        "Cher Monsieur virgule \u{e0} la ligne Je vous \u{e9}cris pour vous informer que ouvrir parenth\u{e8}se voir d\u{e9}tails ci-dessous fermer parenth\u{e8}se point nouveau paragraphe Cordialement",
        DictationMode::General,
    );
    assert_eq!(
        result.text,
        "Cher Monsieur,\nJe vous \u{e9}cris pour vous informer que (voir d\u{e9}tails ci-dessous).\n\nCordialement"
    );
    assert!(result.actions.is_empty());
}

#[test]
fn test_whitespace_cleanup() {
    let result = parse("texte   avec   espaces", DictationMode::General);
    assert_eq!(result.text, "texte avec espaces");
}

#[test]
fn test_empty_input() {
    let result = parse("", DictationMode::General);
    assert_eq!(result.text, "");
    assert!(result.actions.is_empty());
}

#[test]
fn test_no_commands() {
    let result = parse("Texte normal sans commandes", DictationMode::General);
    assert_eq!(result.text, "Texte normal sans commandes");
    assert!(result.actions.is_empty());
}

#[test]
fn longest_phrase_wins_over_its_prefix() {
    // "point d'interrogation" is consumed whole; the shorter "point" rule
    // never splits it.
    let result = parse("point d'interrogation", DictationMode::General);
    assert_eq!(result.text, "?");
    assert!(result.actions.is_empty());
}

#[test]
fn simple_virgule_between_words() {
    let result = parse("un virgule deux", DictationMode::General);
    assert_eq!(result.text, "un, deux");
    assert!(result.actions.is_empty());
}

#[test]
fn space_before_line_break_is_dropped() {
    let result = parse("a \n b", DictationMode::General);
    assert_eq!(result.text, "a\nb");
    assert!(result.actions.is_empty());
}
