//! Voice-command parser: turns recognised speech into clean output text
//! plus an ordered list of discrete actions.
//!
//! The stages run in a fixed order, each on the previous stage's output:
//! contextual commands for the active dictation mode, then generic edit
//! commands, then application-open commands, then punctuation replacement
//! (longest phrase first), then whitespace cleanup. Every stage matches
//! case-insensitively; only punctuation replacement applies to every
//! occurrence, the others consume the first occurrence per call.

use vstd::prelude::*;

use crate::text::{
    append_chars, chars_eq, chars_to_string, clean_ws_loop, clean_ws_step, find_ci_from,
    first_match, first_match_from, is_space_char, is_space_exec, lemma_first_match_in_range,
    lower, lower_chars, next_space, str_to_chars, subrange_chars, trim_chars, trim_end_chars,
    trim_end_spec, trim_spec, trim_start_chars, trim_start_spec,
};
use crate::types::DictationMode;

verus! {

/// An action extracted from a command phrase, to be mapped by the host to a
/// platform side effect (or ignored where unimplemented).
#[derive(Debug, Clone, PartialEq)]
pub enum Action {
    /// Delete the last word or selection.
    Delete,
    /// Undo the last action.
    Undo,
    /// Clear all text.
    ClearAll,
    /// Convert the selection to uppercase.
    Uppercase,
    /// Copy the selection to the clipboard.
    Copy,
    /// Stop dictation.
    Stop,
    /// Insert the mail signature (email mode).
    InsertSignature,
    /// Insert a politeness formula (email mode).
    InsertGreeting,
    /// Insert a function template (code mode).
    InsertFunction,
    /// Insert a comment (code mode).
    InsertComment,
    /// Insert a bullet point (notes mode).
    InsertBullet,
    /// Insert a title line (notes mode).
    InsertTitle,
    /// Open the named application.
    OpenApp(String),
}

/// Mathematical image of an [`Action`]: the application name as a character
/// sequence.
pub enum ActionV {
    Delete,
    Undo,
    ClearAll,
    Uppercase,
    Copy,
    Stop,
    InsertSignature,
    InsertGreeting,
    InsertFunction,
    InsertComment,
    InsertBullet,
    InsertTitle,
    OpenApp(Seq<char>),
}

impl View for Action {
    type V = ActionV;

    open spec fn view(&self) -> ActionV {
        match self {
            Action::Delete => ActionV::Delete,
            Action::Undo => ActionV::Undo,
            Action::ClearAll => ActionV::ClearAll,
            Action::Uppercase => ActionV::Uppercase,
            Action::Copy => ActionV::Copy,
            Action::Stop => ActionV::Stop,
            Action::InsertSignature => ActionV::InsertSignature,
            Action::InsertGreeting => ActionV::InsertGreeting,
            Action::InsertFunction => ActionV::InsertFunction,
            Action::InsertComment => ActionV::InsertComment,
            Action::InsertBullet => ActionV::InsertBullet,
            Action::InsertTitle => ActionV::InsertTitle,
            Action::OpenApp(name) => ActionV::OpenApp(name@),
        }
    }
}

/// The views of a list of actions.
pub open spec fn action_views(actions: Seq<Action>) -> Seq<ActionV> {
    actions.map_values(|a: Action| a@)
}

/// Result of parsing voice commands from text.
#[derive(Debug, Clone)]
pub struct ParseResult {
    /// The processed text, punctuation commands replaced.
    pub text: String,
    /// The actions extracted from command phrases, in extraction order.
    pub actions: Vec<Action>,
}

/// How a punctuation replacement treats the space around it.
#[derive(Debug, Clone, Copy)]
pub enum SpacingRule {
    /// Trim space before, one space after if more text follows (`.`, `,`,
    /// `;`, `:`, `?`, `!`, closing bracket and quote).
    CloseWithSpace,
    /// Trim space before, nothing after.
    CloseNoSpace,
    /// Keep a separating space before, nothing after (opening bracket and
    /// quote).
    OpenNoSpace,
    /// Trim space before; the replacement itself is the line break.
    Newline,
}

/// The generic edit commands, each a phrase with a fixed marker prefix.
pub open spec fn edit_commands() -> Seq<(Seq<char>, ActionV)> {
    seq![
        ("commande tout effacer"@, ActionV::ClearAll),
        ("commande majuscules"@, ActionV::Uppercase),
        ("commande annuler"@, ActionV::Undo),
        ("commande efface"@, ActionV::Delete),
        ("commande copier"@, ActionV::Copy),
        ("commande stop"@, ActionV::Stop),
    ]
}

/// The contextual commands of one dictation mode.
pub open spec fn contextual_commands(mode: DictationMode) -> Seq<(Seq<char>, ActionV)> {
    match mode {
        DictationMode::Email => seq![
            ("commande formule politesse"@, ActionV::InsertGreeting),
            ("commande signature"@, ActionV::InsertSignature),
        ],
        DictationMode::Code => seq![
            ("commande commentaire"@, ActionV::InsertComment),
            ("commande fonction"@, ActionV::InsertFunction),
        ],
        DictationMode::Notes => seq![
            ("commande titre"@, ActionV::InsertTitle),
            ("commande puce"@, ActionV::InsertBullet),
        ],
        DictationMode::General => Seq::empty(),
    }
}

/// The words that open an application, imperative forms only.
pub open spec fn app_triggers() -> Seq<Seq<char>> {
    seq!["ouvre"@, "lance"@, "mets"@, "d\u{e9}marre"@, "demarre"@]
}

/// The punctuation table, ordered longest phrase first so that a short
/// phrase never consumes part of a longer one.
pub open spec fn punct_mappings() -> Seq<(Seq<char>, Seq<char>, SpacingRule)> {
    seq![
        ("point d'interrogation"@, "?"@, SpacingRule::CloseWithSpace),
        ("point d'exclamation"@, "!"@, SpacingRule::CloseWithSpace),
        ("nouveau paragraphe"@, "\n\n"@, SpacingRule::Newline),
        ("ouvrir parenth\u{e8}se"@, "("@, SpacingRule::OpenNoSpace),
        ("fermer parenth\u{e8}se"@, ")"@, SpacingRule::CloseWithSpace),
        ("ouvrir guillemets"@, "\u{ab}"@, SpacingRule::OpenNoSpace),
        ("fermer guillemets"@, "\u{bb}"@, SpacingRule::CloseWithSpace),
        ("point virgule"@, ";"@, SpacingRule::CloseWithSpace),
        ("deux points"@, ":"@, SpacingRule::CloseWithSpace),
        ("\u{e0} la ligne"@, "\n"@, SpacingRule::Newline),
        ("virgule"@, ","@, SpacingRule::CloseWithSpace),
        ("point"@, "."@, SpacingRule::CloseWithSpace),
    ]
}

/// One command extraction: remove the first case-insensitive occurrence of
/// `cmd`, trim the cut ends, and rejoin with a single space where text
/// remains on both sides. The flag says whether the command was found.
pub open spec fn extract_command_spec(text: Seq<char>, cmd: Seq<char>) -> (Seq<char>, bool) {
    match first_match(text, cmd) {
        Option::None => (text, false),
        Option::Some(pos) => {
            let before = trim_end_spec(text.subrange(0, pos));
            let after = trim_start_spec(
                text.subrange(pos + cmd.len(), text.len() as int),
            );
            if before.len() > 0 && after.len() > 0 {
                (before + seq![' '] + after, true)
            } else {
                (before + after, true)
            }
        },
    }
}

/// Run a whole command table over the text, in table order, collecting the
/// action of each phrase that was found.
pub open spec fn extract_all_spec(
    text: Seq<char>,
    cmds: Seq<(Seq<char>, ActionV)>,
) -> (Seq<char>, Seq<ActionV>)
    decreases cmds.len(),
{
    if cmds.len() == 0 {
        (text, Seq::empty())
    } else {
        let step = extract_command_spec(text, cmds[0].0);
        let rest = extract_all_spec(step.0, cmds.drop_first());
        if step.1 {
            (rest.0, seq![cmds[0].1] + rest.1)
        } else {
            (rest.0, rest.1)
        }
    }
}

/// The words of the text: maximal runs of non-whitespace characters.
pub open spec fn words_from(s: Seq<char>, i: int) -> Seq<Seq<char>>
    decreases s.len() - i when 0 <= i via words_from_dec
{
    if i >= s.len() {
        Seq::empty()
    } else if is_space_char(s[i]) {
        words_from(s, i + 1)
    } else {
        let k = next_space(s, i);
        seq![s.subrange(i, k)] + words_from(s, k)
    }
}

#[via_fn]
proof fn words_from_dec(s: Seq<char>, i: int) {
    if 0 <= i && i < s.len() && !is_space_char(s[i]) {
        crate::text::lemma_next_space_bounds(s, i + 1);
    }
}

/// The words joined back together with single spaces.
pub open spec fn join_spaces(ws: Seq<Seq<char>>) -> Seq<char>
    decreases ws.len(),
{
    if ws.len() == 0 {
        Seq::empty()
    } else if ws.len() == 1 {
        ws[0]
    } else {
        ws[0] + seq![' '] + join_spaces(ws.drop_first())
    }
}

/// First position, before the last word, whose word equals the trigger
/// (case-insensitively): a bare trigger with nothing after it names no
/// application and is left alone.
pub open spec fn trigger_pos_from(ws: Seq<Seq<char>>, t: Seq<char>, i: int) -> Option<int>
    decreases ws.len() - i when 0 <= i
{
    if i + 1 >= ws.len() {
        None
    } else if lower(ws[i]) == lower(t) {
        Some(i)
    } else {
        trigger_pos_from(ws, t, i + 1)
    }
}

/// The word position consumed by the first trigger, trigger synonyms tried
/// in a fixed order; only the first match across all of them is honoured.
pub open spec fn app_match_from(ws: Seq<Seq<char>>, k: int) -> Option<int>
    decreases app_triggers().len() - k when 0 <= k
{
    if k >= app_triggers().len() {
        None
    } else {
        match trigger_pos_from(ws, app_triggers()[k], 0) {
            Some(i) => Some(i),
            None => app_match_from(ws, k + 1),
        }
    }
}

/// Application-open extraction: when a trigger word is followed by another
/// word, that word is the application name; both are removed and the rest
/// of the words are rejoined with single spaces. Without a match the text
/// is returned untouched.
pub open spec fn app_extract_spec(text: Seq<char>) -> (Seq<char>, Option<Seq<char>>) {
    let ws = words_from(text, 0);
    match app_match_from(ws, 0) {
        None => (text, None),
        Some(i) => (
            join_spaces(ws.subrange(0, i) + ws.subrange(i + 2, ws.len() as int)),
            Some(ws[i + 1]),
        ),
    }
}

/// The spacing of one punctuation replacement: how the text before the
/// phrase, the replacement and a possible separating space are assembled
/// onto the output built so far. `more` says whether any text follows.
pub open spec fn apply_rule(
    acc: Seq<char>,
    before: Seq<char>,
    repl: Seq<char>,
    rule: SpacingRule,
    more: bool,
) -> Seq<char> {
    match rule {
        SpacingRule::CloseWithSpace => if more {
            acc + trim_end_spec(before) + repl + seq![' ']
        } else {
            acc + trim_end_spec(before) + repl
        },
        SpacingRule::CloseNoSpace => acc + trim_end_spec(before) + repl,
        SpacingRule::OpenNoSpace => {
            let joined = acc + before;
            if joined.len() > 0 && joined[joined.len() - 1] != ' ' {
                joined + seq![' '] + repl
            } else {
                joined + repl
            }
        },
        SpacingRule::Newline => acc + trim_end_spec(before) + repl,
    }
}

/// Replacement of every occurrence of one punctuation phrase, scanning left
/// to right; a single space directly after the phrase is consumed with it.
pub open spec fn replace_punct_loop(
    text: Seq<char>,
    pat: Seq<char>,
    repl: Seq<char>,
    rule: SpacingRule,
    idx: int,
    acc: Seq<char>,
) -> Seq<char>
    decreases text.len() - idx when 0 < pat.len() && 0 <= idx via replace_punct_dec
{
    match first_match_from(text, pat, idx) {
        None => acc + text.subrange(idx, text.len() as int),
        Some(start) => {
            let end = start + pat.len();
            let after = if end < text.len() && text[end] == ' ' {
                end + 1
            } else {
                end
            };
            let acc2 = apply_rule(
                acc,
                text.subrange(idx, start),
                repl,
                rule,
                after < text.len(),
            );
            replace_punct_loop(text, pat, repl, rule, after, acc2)
        },
    }
}

#[via_fn]
proof fn replace_punct_dec(
    text: Seq<char>,
    pat: Seq<char>,
    repl: Seq<char>,
    rule: SpacingRule,
    idx: int,
    acc: Seq<char>,
) {
    if 0 < pat.len() && 0 <= idx {
        if let Some(start) = first_match_from(text, pat, idx) {
            lemma_first_match_in_range(text, pat, idx, start);
        }
    }
}

/// One punctuation phrase replaced throughout the text.
pub open spec fn replace_punct_spec(
    text: Seq<char>,
    pat: Seq<char>,
    repl: Seq<char>,
    rule: SpacingRule,
) -> Seq<char> {
    replace_punct_loop(text, pat, repl, rule, 0, Seq::empty())
}

/// The whole punctuation table applied in order, starting at entry `k`.
pub open spec fn punct_all_spec(text: Seq<char>, k: int) -> Seq<char>
    decreases punct_mappings().len() - k when 0 <= k
{
    if k >= punct_mappings().len() {
        text
    } else {
        let entry = punct_mappings()[k];
        punct_all_spec(replace_punct_spec(text, entry.0, entry.1, entry.2), k + 1)
    }
}

/// Whitespace cleanup: repeated spaces collapse to one, a space directly
/// before a line break disappears, no space is kept directly after a line
/// break, and both ends are trimmed.
pub open spec fn clean_ws_spec(s: Seq<char>) -> Seq<char> {
    trim_spec(clean_ws_loop(s, 0, Seq::empty(), false, false))
}

/// Extract one command phrase: remove its first case-insensitive
/// occurrence, trim the cut, and rejoin; the flag reports whether the
/// phrase occurred.
pub fn extract_command(text: &[char], cmd: &[char]) -> (r: (Vec<char>, bool))
    ensures
        r.0@ == extract_command_spec(text@, cmd@).0,
        r.1 == extract_command_spec(text@, cmd@).1,
{
    match find_ci_from(text, cmd, 0) {
        None => {
            let out = subrange_chars(text, 0, text.len());
            proof {
                assert(text@.subrange(0, text@.len() as int) =~= text@);
            }
            (out, false)
        },
        Some(pos) => {
            proof {
                lemma_first_match_in_range(text@, cmd@, 0, pos as int);
            }
            let n = text.len();
            let before_raw = subrange_chars(text, 0, pos);
            let mut out = trim_end_chars(before_raw.as_slice());
            let after_raw = subrange_chars(text, pos + cmd.len(), n);
            let after = trim_start_chars(after_raw.as_slice());
            let ghost b = out@;
            let ghost a = after@;
            if out.len() > 0 && after.len() > 0 {
                out.push(' ');
                append_chars(&mut out, after.as_slice());
                proof {
                    assert(out@ =~= b + seq![' '] + a);
                }
            } else {
                append_chars(&mut out, after.as_slice());
            }
            (out, true)
        },
    }
}

/// Run one command table over the text in order, appending the action of
/// each phrase that was found.
fn run_table(text: Vec<char>, cmds: Vec<(Vec<char>, Action)>, actions: &mut Vec<Action>)
    -> (out: Vec<char>)
    ensures
        out@ == extract_all_spec(text@, table_views(cmds@)).0,
        action_views(final(actions)@)
            == action_views(old(actions)@) + extract_all_spec(text@, table_views(cmds@)).1,
{
    let mut cmds = cmds;
    let mut t = text;
    let ghost t0 = t@;
    let ghost all = table_views(cmds@);
    let ghost mut done: Seq<ActionV> = Seq::empty();
    proof {
        assert(Seq::<ActionV>::empty() + extract_all_spec(t0, all).1
            =~= extract_all_spec(t0, all).1);
        assert(action_views(actions@) + Seq::<ActionV>::empty()
            =~= action_views(actions@));
    }
    while cmds.len() > 0
        invariant
            extract_all_spec(t0, all).0
                == extract_all_spec(t@, table_views(cmds@)).0,
            extract_all_spec(t0, all).1
                == done + extract_all_spec(t@, table_views(cmds@)).1,
            action_views(actions@) == action_views(old(actions)@) + done,
        decreases cmds@.len(),
    {
        let ghost tb = t@;
        let ghost cpre = table_views(cmds@);
        let (word, action) = cmds.remove(0);
        proof {
            assert(cpre[0] == (word@, action@));
            assert(table_views(cmds@) =~= cpre.drop_first());
        }
        let step = extract_command(t.as_slice(), word.as_slice());
        let hit = step.1;
        t = step.0;
        proof {
            assert(t@ == extract_command_spec(tb, cpre[0].0).0);
            assert(hit == extract_command_spec(tb, cpre[0].0).1);
        }
        if hit {
            let ghost before_acts = actions@;
            actions.push(action);
            proof {
                assert(action_views(actions@) =~= action_views(before_acts).push(action@));
                let rest = extract_all_spec(t@, cpre.drop_first()).1;
                assert(extract_all_spec(tb, cpre).1 == seq![action@] + rest);
                assert(done + (seq![action@] + rest) =~= (done + seq![action@]) + rest);
                done = done + seq![action@];
                assert(action_views(actions@)
                    =~= action_views(old(actions)@) + done);
            }
        }
    }
    proof {
        assert(done + extract_all_spec(t@, table_views(cmds@)).1 =~= done);
    }
    t
}

/// The views of a runtime command table.
pub open spec fn table_views(cmds: Seq<(Vec<char>, Action)>) -> Seq<(Seq<char>, ActionV)> {
    cmds.map_values(|p: (Vec<char>, Action)| (p.0@, p.1@))
}

/// The edit-command table as runtime values.
fn edit_command_vec() -> (v: Vec<(Vec<char>, Action)>)
    ensures
        table_views(v@) == edit_commands(),
{
    let mut v: Vec<(Vec<char>, Action)> = Vec::new();
    v.push((str_to_chars("commande tout effacer"), Action::ClearAll));
    v.push((str_to_chars("commande majuscules"), Action::Uppercase));
    v.push((str_to_chars("commande annuler"), Action::Undo));
    v.push((str_to_chars("commande efface"), Action::Delete));
    v.push((str_to_chars("commande copier"), Action::Copy));
    v.push((str_to_chars("commande stop"), Action::Stop));
    proof {
        assert(table_views(v@) =~= edit_commands());
    }
    v
}

/// The contextual-command table of the mode as runtime values.
fn contextual_command_vec(mode: DictationMode) -> (v: Vec<(Vec<char>, Action)>)
    ensures
        table_views(v@) == contextual_commands(mode),
{
    let mut v: Vec<(Vec<char>, Action)> = Vec::new();
    match mode {
        DictationMode::Email => {
            v.push((str_to_chars("commande formule politesse"), Action::InsertGreeting));
            v.push((str_to_chars("commande signature"), Action::InsertSignature));
        },
        DictationMode::Code => {
            v.push((str_to_chars("commande commentaire"), Action::InsertComment));
            v.push((str_to_chars("commande fonction"), Action::InsertFunction));
        },
        DictationMode::Notes => {
            v.push((str_to_chars("commande titre"), Action::InsertTitle));
            v.push((str_to_chars("commande puce"), Action::InsertBullet));
        },
        DictationMode::General => {},
    }
    proof {
        assert(table_views(v@) =~= contextual_commands(mode));
    }
    v
}

/// The words named by a list of index ranges into the text.
pub open spec fn range_words(s: Seq<char>, rs: Seq<(usize, usize)>) -> Seq<Seq<char>> {
    rs.map_values(|r: (usize, usize)| s.subrange(r.0 as int, r.1 as int))
}

/// Every range names a non-empty span inside the text.
pub open spec fn ranges_valid(s: Seq<char>, rs: Seq<(usize, usize)>) -> bool {
    forall|k: int| 0 <= k < rs.len()
        ==> (#[trigger] rs[k]).0 < rs[k].1 && rs[k].1 <= s.len()
}

/// Word boundaries of the text: the ranges of its maximal non-whitespace
/// runs, in order.
fn split_words(text: &[char]) -> (rs: Vec<(usize, usize)>)
    ensures
        range_words(text@, rs@) == words_from(text@, 0),
        ranges_valid(text@, rs@),
{
    let n = text.len();
    let mut rs: Vec<(usize, usize)> = Vec::new();
    let mut i: usize = 0;
    proof {
        assert(range_words(text@, rs@) + words_from(text@, 0) =~= words_from(text@, 0));
    }
    while i < n
        invariant
            n == text@.len(),
            i <= n,
            words_from(text@, 0) == range_words(text@, rs@) + words_from(text@, i as int),
            ranges_valid(text@, rs@),
        decreases n - i,
    {
        if is_space_exec(text[i]) {
            i = i + 1;
        } else {
            let start = i;
            let mut j = i;
            while j < n && !is_space_exec(text[j])
                invariant
                    n == text@.len(),
                    start <= j <= n,
                    forall|k: int| start <= k < j ==> !is_space_char(text@[k]),
                decreases n - j,
            {
                j = j + 1;
            }
            proof {
                crate::text::lemma_next_space_at(text@, start as int, j as int);
                let ws_pre = range_words(text@, rs@);
                assert(words_from(text@, start as int)
                    == seq![text@.subrange(start as int, j as int)]
                        + words_from(text@, j as int));
                assert(range_words(text@, rs@.push((start, j)))
                    =~= ws_pre.push(text@.subrange(start as int, j as int)));
                assert(ws_pre + (seq![text@.subrange(start as int, j as int)]
                    + words_from(text@, j as int))
                    =~= ws_pre.push(text@.subrange(start as int, j as int))
                        + words_from(text@, j as int));
            }
            rs.push((start, j));
            i = j;
        }
    }
    proof {
        assert(range_words(text@, rs@) + words_from(text@, i as int)
            =~= range_words(text@, rs@));
    }
    rs
}

/// First word position, before the last word, that equals the trigger
/// case-insensitively.
fn trigger_pos(text: &[char], rs: &Vec<(usize, usize)>, t: &[char]) -> (r: Option<usize>)
    requires
        ranges_valid(text@, rs@),
    ensures
        match r {
            Some(i) => trigger_pos_from(range_words(text@, rs@), t@, 0) == Some(i as int)
                && i + 1 < rs@.len(),
            None => trigger_pos_from(range_words(text@, rs@), t@, 0) is None,
        },
{
    let ghost ws = range_words(text@, rs@);
    let tl = lower_chars(t);
    let n_words = rs.len();
    if n_words == 0 {
        return None;
    }
    let mut i: usize = 0;
    while i < n_words - 1
        invariant
            ws == range_words(text@, rs@),
            ranges_valid(text@, rs@),
            n_words == rs@.len(),
            n_words >= 1,
            tl@ == lower(t@),
            i <= n_words - 1,
            trigger_pos_from(ws, t@, 0) == trigger_pos_from(ws, t@, i as int),
        decreases rs@.len() - i,
    {
        let range = rs[i];
        let w = subrange_chars(text, range.0, range.1);
        let wl = lower_chars(w.as_slice());
        if chars_eq(wl.as_slice(), tl.as_slice()) {
            proof {
                assert(ws[i as int] == text@.subrange(rs@[i as int].0 as int,
                    rs@[i as int].1 as int));
            }
            return Some(i);
        }
        proof {
            assert(ws[i as int] == text@.subrange(rs@[i as int].0 as int,
                rs@[i as int].1 as int));
        }
        i = i + 1;
    }
    None
}

/// The trigger synonyms as string slices, in match priority order.
fn app_trigger_entry(k: usize) -> (s: &'static str)
    requires
        k < 5,
    ensures
        s@ == app_triggers()[k as int],
{
    match k {
        0 => "ouvre",
        1 => "lance",
        2 => "mets",
        3 => "d\u{e9}marre",
        _ => "demarre",
    }
}

/// Splitting a word list after any position splits its single-space join
/// around one separating space.
proof fn lemma_join_snoc(ws: Seq<Seq<char>>, w: Seq<char>)
    ensures
        join_spaces(ws.push(w)) == if ws.len() == 0 {
            w
        } else {
            join_spaces(ws) + seq![' '] + w
        },
    decreases ws.len(),
{
    if ws.len() == 0 {
        assert(ws.push(w)[0] == w);
    } else {
        assert(ws.push(w).drop_first() =~= ws.drop_first().push(w));
        assert(ws.push(w)[0] == ws[0]);
        lemma_join_snoc(ws.drop_first(), w);
        if ws.len() > 1 {
            assert(ws[0] + seq![' '] + (join_spaces(ws.drop_first()) + seq![' '] + w)
                =~= (ws[0] + seq![' '] + join_spaces(ws.drop_first())) + seq![' '] + w);
        }
    }
}

/// Join the words named by the ranges with single spaces.
fn join_ranges(text: &[char], rs: &Vec<(usize, usize)>) -> (out: Vec<char>)
    requires
        ranges_valid(text@, rs@),
    ensures
        out@ == join_spaces(range_words(text@, rs@)),
{
    let ghost ws = range_words(text@, rs@);
    let mut out: Vec<char> = Vec::new();
    let mut j: usize = 0;
    proof {
        assert(ws.take(0) =~= Seq::<Seq<char>>::empty());
    }
    while j < rs.len()
        invariant
            ws == range_words(text@, rs@),
            ranges_valid(text@, rs@),
            j <= rs@.len(),
            out@ == join_spaces(ws.take(j as int)),
            j > 0 ==> out@.len() > 0,
        decreases rs@.len() - j,
    {
        let range = rs[j];
        let w = subrange_chars(text, range.0, range.1);
        let ghost pre = out@;
        if j > 0 {
            out.push(' ');
        }
        append_chars(&mut out, w.as_slice());
        proof {
            assert(ws[j as int] == text@.subrange(rs@[j as int].0 as int,
                rs@[j as int].1 as int));
            assert(ws.take(j + 1) =~= ws.take(j as int).push(ws[j as int]));
            lemma_join_snoc(ws.take(j as int), ws[j as int]);
            if j > 0 {
                assert(out@ =~= join_spaces(ws.take(j as int)) + seq![' '] + ws[j as int]);
            } else {
                assert(out@ =~= ws[j as int]);
            }
            assert(ws[j as int].len() > 0);
        }
        j = j + 1;
    }
    proof {
        assert(ws.take(ws.len() as int) =~= ws);
    }
    out
}

/// Extract the first application-open command: the trigger word and the
/// word after it leave the text, which is rejoined with single spaces; the
/// application name becomes an action. Without a match, the text passes
/// through untouched.
pub fn extract_app_commands(text: &[char], actions: &mut Vec<Action>) -> (out: Vec<char>)
    ensures
        out@ == app_extract_spec(text@).0,
        action_views(final(actions)@) == action_views(old(actions)@)
            + match app_extract_spec(text@).1 {
                Option::None => Seq::<ActionV>::empty(),
                Option::Some(name) => seq![ActionV::OpenApp(name)],
            },
{
    let ghost ws = words_from(text@, 0);
    let rs = split_words(text);
    let mut k: usize = 0;
    while k < 5
        invariant
            ws == words_from(text@, 0),
            ws == range_words(text@, rs@),
            ranges_valid(text@, rs@),
            k <= 5,
            app_triggers().len() == 5,
            app_match_from(ws, 0) == app_match_from(ws, k as int),
            actions@ == old(actions)@,
        decreases 5 - k,
    {
        let trig = str_to_chars(app_trigger_entry(k));
        match trigger_pos(text, &rs, trig.as_slice()) {
            Some(i) => {
                proof {
                    assert(app_match_from(ws, k as int) == Some(i as int));
                }
                let total = rs.len();
                proof {
                    assert(i + 1 < total);
                }
                let name_range = rs[i + 1];
                let name = subrange_chars(text, name_range.0, name_range.1);
                proof {
                    assert(ws[i + 1] == text@.subrange(rs@[i + 1].0 as int,
                        rs@[i + 1].1 as int));
                }
                let ghost acts_pre = actions@;
                actions.push(Action::OpenApp(chars_to_string(name.as_slice())));
                proof {
                    assert(action_views(actions@)
                        =~= action_views(acts_pre).push(ActionV::OpenApp(ws[i + 1])));
                    assert(action_views(old(actions)@) + seq![ActionV::OpenApp(ws[i + 1])]
                        =~= action_views(actions@));
                }
                let mut kept: Vec<(usize, usize)> = Vec::new();
                let mut q: usize = 0;
                proof {
                    assert(range_words(text@, kept@) =~= ws.subrange(0, 0));
                }
                while q < i
                    invariant
                        ws == range_words(text@, rs@),
                        ranges_valid(text@, rs@),
                        q <= i,
                        i + 1 < rs@.len(),
                        kept@ == rs@.subrange(0, q as int),
                        range_words(text@, kept@) == ws.subrange(0, q as int),
                    decreases i - q,
                {
                    kept.push(rs[q]);
                    proof {
                        assert(kept@ =~= rs@.subrange(0, q + 1));
                        assert(range_words(text@, kept@) =~= ws.subrange(0, q + 1));
                    }
                    q = q + 1;
                }
                let mut q2: usize = i + 2;
                proof {
                    assert(kept@ =~= rs@.subrange(0, i as int) + rs@.subrange(i + 2, i + 2));
                    assert(range_words(text@, kept@)
                        =~= ws.subrange(0, i as int) + ws.subrange(i + 2, i + 2));
                }
                while q2 < rs.len()
                    invariant
                        ws == range_words(text@, rs@),
                        ranges_valid(text@, rs@),
                        i + 2 <= q2 <= rs@.len(),
                        kept@ == rs@.subrange(0, i as int) + rs@.subrange(i + 2, q2 as int),
                        range_words(text@, kept@) == ws.subrange(0, i as int)
                            + ws.subrange(i + 2, q2 as int),
                    decreases rs@.len() - q2,
                {
                    kept.push(rs[q2]);
                    proof {
                        assert(kept@ =~= rs@.subrange(0, i as int) + rs@.subrange(i + 2, q2 + 1));
                        assert(range_words(text@, kept@)
                            =~= ws.subrange(0, i as int) + ws.subrange(i + 2, q2 + 1));
                    }
                    q2 = q2 + 1;
                }
                return join_ranges(text, &kept);
            },
            None => {
                proof {
                    assert(app_match_from(ws, k as int) == app_match_from(ws, k + 1));
                }
            },
        }
        k = k + 1;
    }
    proof {
        assert(app_match_from(ws, 5) is None);
        assert(action_views(actions@) + Seq::<ActionV>::empty() =~= action_views(actions@));
    }
    let out = subrange_chars(text, 0, text.len());
    proof {
        assert(text@.subrange(0, text@.len() as int) =~= text@);
    }
    out
}

/// Replace every case-insensitive occurrence of one punctuation phrase,
/// applying its spacing rule; a single space directly after the phrase is
/// consumed with it.
pub fn replace_punctuation_command(
    text: &[char],
    pat: &[char],
    repl: &[char],
    rule: SpacingRule,
) -> (out: Vec<char>)
    requires
        pat@.len() > 0,
    ensures
        out@ == replace_punct_spec(text@, pat@, repl@, rule),
{
    let n = text.len();
    let mut acc: Vec<char> = Vec::new();
    let mut idx: usize = 0;
    let mut found = find_ci_from(text, pat, idx);
    while found.is_some()
        invariant
            n == text@.len(),
            pat@.len() > 0,
            idx <= n,
            match found {
                Some(s) => first_match_from(text@, pat@, idx as int) == Some(s as int)
                    && idx <= s,
                None => first_match_from(text@, pat@, idx as int) is None,
            },
            replace_punct_loop(text@, pat@, repl@, rule, idx as int, acc@)
                == replace_punct_spec(text@, pat@, repl@, rule),
        decreases n - idx + (if found.is_some() { 1int } else { 0int }),
    {
        let start = found.unwrap();
        proof {
            lemma_first_match_in_range(text@, pat@, idx as int, start as int);
        }
        let end = start + pat.len();
        let after = if end < n && text[end] == ' ' {
            end + 1
        } else {
            end
        };
        let before = subrange_chars(text, idx, start);
        let ghost acc0 = acc@;
        let ghost before_s = text@.subrange(idx as int, start as int);
        let ghost more = (after as int) < text@.len();
        match rule {
            SpacingRule::CloseWithSpace => {
                let tb = trim_end_chars(before.as_slice());
                append_chars(&mut acc, tb.as_slice());
                append_chars(&mut acc, repl);
                if after < n {
                    acc.push(' ');
                    proof {
                        assert(acc@ =~= acc0 + trim_end_spec(before_s) + repl@ + seq![' ']);
                    }
                } else {
                    proof {
                        assert(acc@ =~= acc0 + trim_end_spec(before_s) + repl@);
                    }
                }
            },
            SpacingRule::CloseNoSpace => {
                let tb = trim_end_chars(before.as_slice());
                append_chars(&mut acc, tb.as_slice());
                append_chars(&mut acc, repl);
                proof {
                    assert(acc@ =~= acc0 + trim_end_spec(before_s) + repl@);
                }
            },
            SpacingRule::OpenNoSpace => {
                append_chars(&mut acc, before.as_slice());
                let ghost joined = acc0 + before_s;
                proof {
                    assert(acc@ == joined);
                }
                if acc.len() > 0 && acc[acc.len() - 1] != ' ' {
                    acc.push(' ');
                    append_chars(&mut acc, repl);
                    proof {
                        assert(acc@ =~= joined + seq![' '] + repl@);
                    }
                } else {
                    append_chars(&mut acc, repl);
                    proof {
                        assert(acc@ =~= joined + repl@);
                    }
                }
            },
            SpacingRule::Newline => {
                let tb = trim_end_chars(before.as_slice());
                append_chars(&mut acc, tb.as_slice());
                append_chars(&mut acc, repl);
                proof {
                    assert(acc@ =~= acc0 + trim_end_spec(before_s) + repl@);
                }
            },
        }
        proof {
            assert(acc@ == apply_rule(acc0, before_s, repl@, rule, more));
            assert(replace_punct_loop(text@, pat@, repl@, rule, idx as int, acc0)
                == replace_punct_loop(text@, pat@, repl@, rule, after as int, acc@));
        }
        idx = after;
        found = find_ci_from(text, pat, idx);
    }
    let rest = subrange_chars(text, idx, n);
    append_chars(&mut acc, rest.as_slice());
    acc
}

/// The punctuation table as runtime values, entry by entry.
fn punct_entry(k: usize) -> (r: (&'static str, &'static str, SpacingRule))
    requires
        k < 12,
    ensures
        r.0@ == punct_mappings()[k as int].0,
        r.1@ == punct_mappings()[k as int].1,
        r.2 == punct_mappings()[k as int].2,
        r.0@.len() > 0,
{
    let r: (&'static str, &'static str, SpacingRule) = match k {
        0 => ("point d'interrogation", "?", SpacingRule::CloseWithSpace),
        1 => ("point d'exclamation", "!", SpacingRule::CloseWithSpace),
        2 => ("nouveau paragraphe", "\n\n", SpacingRule::Newline),
        3 => ("ouvrir parenth\u{e8}se", "(", SpacingRule::OpenNoSpace),
        4 => ("fermer parenth\u{e8}se", ")", SpacingRule::CloseWithSpace),
        5 => ("ouvrir guillemets", "\u{ab}", SpacingRule::OpenNoSpace),
        6 => ("fermer guillemets", "\u{bb}", SpacingRule::CloseWithSpace),
        7 => ("point virgule", ";", SpacingRule::CloseWithSpace),
        8 => ("deux points", ":", SpacingRule::CloseWithSpace),
        9 => ("\u{e0} la ligne", "\n", SpacingRule::Newline),
        10 => ("virgule", ",", SpacingRule::CloseWithSpace),
        _ => ("point", ".", SpacingRule::CloseWithSpace),
    };
    proof {
        reveal_strlit("point d'interrogation");
        reveal_strlit("point d'exclamation");
        reveal_strlit("nouveau paragraphe");
        reveal_strlit("ouvrir parenth\u{e8}se");
        reveal_strlit("fermer parenth\u{e8}se");
        reveal_strlit("ouvrir guillemets");
        reveal_strlit("fermer guillemets");
        reveal_strlit("point virgule");
        reveal_strlit("deux points");
        reveal_strlit("\u{e0} la ligne");
        reveal_strlit("virgule");
        reveal_strlit("point");
    }
    r
}

/// Apply the whole punctuation table, longest phrase first.
fn replace_all_punctuation(text: Vec<char>) -> (out: Vec<char>)
    ensures
        out@ == punct_all_spec(text@, 0),
{
    let mut t = text;
    let ghost t0 = t@;
    let mut k: usize = 0;
    while k < 12
        invariant
            k <= 12,
            punct_mappings().len() == 12,
            punct_all_spec(t0, 0) == punct_all_spec(t@, k as int),
        decreases 12 - k,
    {
        let entry = punct_entry(k);
        let pat = str_to_chars(entry.0);
        let repl = str_to_chars(entry.1);
        t = replace_punctuation_command(t.as_slice(), pat.as_slice(), repl.as_slice(), entry.2);
        k = k + 1;
    }
    t
}

/// Whitespace cleanup: collapse repeated spaces, drop a space directly
/// before or after a line break, and trim both ends.
pub fn clean_whitespace(text: &[char]) -> (out: Vec<char>)
    ensures
        out@ == clean_ws_spec(text@),
{
    let n = text.len();
    let mut acc: Vec<char> = Vec::new();
    let mut prev_space = false;
    let mut prev_nl = false;
    let mut i: usize = 0;
    while i < n
        invariant
            n == text@.len(),
            i <= n,
            clean_ws_loop(text@, i as int, acc@, prev_space, prev_nl)
                == clean_ws_loop(text@, 0, Seq::empty(), false, false),
        decreases n - i,
    {
        let ghost acc0 = acc@;
        let ghost ps0 = prev_space;
        let ghost pn0 = prev_nl;
        let c = text[i];
        if c == ' ' {
            if !prev_space && !prev_nl {
                acc.push(' ');
            }
            prev_space = true;
            prev_nl = false;
        } else if c == '\n' {
            if prev_space && acc.len() > 0 {
                acc.pop();
                proof {
                    assert(acc@ =~= acc0.drop_last());
                }
            }
            acc.push('\n');
            prev_space = false;
            prev_nl = true;
        } else {
            acc.push(c);
            prev_space = false;
            prev_nl = false;
        }
        proof {
            let step = clean_ws_step(acc0, ps0, pn0, c);
            assert(acc@ == step.0);
            assert(prev_space == step.1);
            assert(prev_nl == step.2);
        }
        i = i + 1;
    }
    trim_chars(acc.as_slice())
}

/// The whole parse: contextual commands of the mode, then edit commands,
/// then application-open commands, then punctuation, then whitespace
/// cleanup; the actions come out in extraction order.
pub open spec fn parse_spec(text: Seq<char>, mode: DictationMode) -> (Seq<char>, Seq<ActionV>) {
    let ctx = extract_all_spec(text, contextual_commands(mode));
    let ed = extract_all_spec(ctx.0, edit_commands());
    let app = app_extract_spec(ed.0);
    let app_actions = match app.1 {
        Option::None => Seq::<ActionV>::empty(),
        Option::Some(name) => seq![ActionV::OpenApp(name)],
    };
    let punct = punct_all_spec(app.0, 0);
    (clean_ws_spec(punct), ctx.1 + ed.1 + app_actions)
}

/// No phrase of the table occurs in the text, under case folding.
pub open spec fn command_free(text: Seq<char>, cmds: Seq<(Seq<char>, ActionV)>) -> bool {
    forall|k: int| 0 <= k < cmds.len()
        ==> first_match(text, (#[trigger] cmds[k]).0) is None
}

/// No punctuation phrase occurs in the text, under case folding.
pub open spec fn punct_free(text: Seq<char>) -> bool {
    forall|k: int| 0 <= k < punct_mappings().len()
        ==> first_match(text, (#[trigger] punct_mappings()[k]).0) is None
}

/// Already-cleaned text: no contextual or edit command phrase of the mode,
/// no application trigger followed by a word, no punctuation phrase, and
/// whitespace already in normal form.
pub open spec fn is_clean(text: Seq<char>, mode: DictationMode) -> bool {
    &&& command_free(text, contextual_commands(mode))
    &&& command_free(text, edit_commands())
    &&& app_match_from(words_from(text, 0), 0) is None
    &&& punct_free(text)
    &&& clean_ws_spec(text) == text
}

/// A table none of whose phrases occurs leaves the text unchanged and
/// yields no action.
proof fn lemma_extract_all_identity(text: Seq<char>, cmds: Seq<(Seq<char>, ActionV)>)
    requires
        command_free(text, cmds),
    ensures
        extract_all_spec(text, cmds).0 == text,
        extract_all_spec(text, cmds).1 == Seq::<ActionV>::empty(),
    decreases cmds.len(),
{
    if cmds.len() > 0 {
        assert(first_match(text, cmds[0].0) is None);
        assert(extract_command_spec(text, cmds[0].0) == (text, false));
        assert(command_free(text, cmds.drop_first())) by {
            assert forall|k: int| 0 <= k < cmds.drop_first().len()
                implies first_match(text, (#[trigger] cmds.drop_first()[k]).0) is None by {
                assert(cmds.drop_first()[k] == cmds[k + 1]);
            }
        }
        lemma_extract_all_identity(text, cmds.drop_first());
    }
}

/// A punctuation phrase that does not occur leaves the text unchanged.
proof fn lemma_punct_all_identity_from(text: Seq<char>, k: int)
    requires
        punct_free(text),
        0 <= k <= punct_mappings().len(),
    ensures
        punct_all_spec(text, k) == text,
    decreases punct_mappings().len() - k,
{
    reveal_strlit("point d'interrogation");
    reveal_strlit("point d'exclamation");
    reveal_strlit("nouveau paragraphe");
    reveal_strlit("ouvrir parenth\u{e8}se");
    reveal_strlit("fermer parenth\u{e8}se");
    reveal_strlit("ouvrir guillemets");
    reveal_strlit("fermer guillemets");
    reveal_strlit("point virgule");
    reveal_strlit("deux points");
    reveal_strlit("\u{e0} la ligne");
    reveal_strlit("virgule");
    reveal_strlit("point");
    if k < punct_mappings().len() {
        let entry = punct_mappings()[k];
        assert(first_match(text, entry.0) is None);
        assert(entry.0.len() > 0);
        assert(Seq::<char>::empty() + text.subrange(0, text.len() as int) =~= text);
        assert(replace_punct_spec(text, entry.0, entry.1, entry.2) == text);
        lemma_punct_all_identity_from(text, k + 1);
    }
}

/// Law: parsing already-cleaned text returns it unchanged, with no
/// actions. Cleaned means: none of the mode's command phrases occurs, no
/// application trigger is followed by a word, no punctuation phrase
/// occurs, and the whitespace is already in the parser's normal form.
pub proof fn lemma_parse_clean_identity(text: Seq<char>, mode: DictationMode)
    requires
        is_clean(text, mode),
    ensures
        parse_spec(text, mode).0 == text,
        parse_spec(text, mode).1 == Seq::<ActionV>::empty(),
{
    lemma_extract_all_identity(text, contextual_commands(mode));
    lemma_extract_all_identity(text, edit_commands());
    assert(app_extract_spec(text).0 == text);
    lemma_punct_all_identity_from(text, 0);
    assert(Seq::<ActionV>::empty() + Seq::<ActionV>::empty() + Seq::<ActionV>::empty()
        =~= Seq::<ActionV>::empty());
}

/// Parse voice commands from transcribed text: replace punctuation
/// phrases, extract edit and contextual commands into actions, extract an
/// application-open command, and clean the whitespace.
pub fn parse(text: &str, mode: DictationMode) -> (r: ParseResult)
    ensures
        r.text@ == parse_spec(text@, mode).0,
        action_views(r.actions@) == parse_spec(text@, mode).1,
{
    let chars = str_to_chars(text);
    let mut actions: Vec<Action> = Vec::new();
    proof {
        assert(action_views(Seq::<Action>::empty()) =~= Seq::<ActionV>::empty());
    }

    let t1 = run_table(chars, contextual_command_vec(mode), &mut actions);
    let ghost ctx = extract_all_spec(text@, contextual_commands(mode));
    let t2 = run_table(t1, edit_command_vec(), &mut actions);
    let ghost ed = extract_all_spec(ctx.0, edit_commands());
    let t3 = extract_app_commands(t2.as_slice(), &mut actions);
    let ghost app = app_extract_spec(ed.0);
    let t4 = replace_all_punctuation(t3);
    let t5 = clean_whitespace(t4.as_slice());

    proof {
        let app_actions: Seq<ActionV> = match app.1 {
            Option::None => Seq::empty(),
            Option::Some(name) => seq![ActionV::OpenApp(name)],
        };
        assert(Seq::<ActionV>::empty() + ctx.1 =~= ctx.1);
        assert(action_views(actions@) =~= (ctx.1 + ed.1) + app_actions);
        assert((ctx.1 + ed.1) + app_actions =~= ctx.1 + ed.1 + app_actions);
    }
    ParseResult { text: chars_to_string(t5.as_slice()), actions }
}

} // verus!
