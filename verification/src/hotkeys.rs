//! Hotkey identities: a modifier set plus a key code, parsed from a
//! human-readable string such as `"Control+Shift+Space"`.
//!
//! Tokens are separated by `+`. Modifier tokens are matched after trimming,
//! case-insensitively; any other token is looked up as a key name, and the
//! last such token decides the key — an unknown token clears it, so
//! `"Ctrl+Q+garbage"` parses to nothing. `commandorcontrol` resolves to the
//! control modifier here; a host targeting a platform with a command key
//! may substitute it before parsing.

use vstd::prelude::*;

use crate::text::{
    chars_eq, lower, lower_chars, str_to_chars, subrange_chars, trim_chars, trim_spec,
};

verus! {

/// The modifier keys a shortcut can require. All-false means no modifier.
#[derive(Debug, Clone, Copy, PartialEq, Eq, Structural)]
pub struct HotkeyModifiers {
    pub control: bool,
    pub meta: bool,
    pub alt: bool,
    pub shift: bool,
}

/// The key codes a shortcut can name.
#[derive(Debug, Clone, Copy, PartialEq, Eq, Structural)]
pub enum KeyCode {
    KeyA, KeyB, KeyC, KeyD, KeyE, KeyF, KeyG, KeyH, KeyI, KeyJ, KeyK, KeyL, KeyM,
    KeyN, KeyO, KeyP, KeyQ, KeyR, KeyS, KeyT, KeyU, KeyV, KeyW, KeyX, KeyY, KeyZ,
    Digit0, Digit1, Digit2, Digit3, Digit4, Digit5, Digit6, Digit7, Digit8, Digit9,
    Space, Enter, Tab, Escape, Backspace, Delete,
    F1, F2, F3, F4, F5, F6, F7, F8, F9, F10, F11, F12,
}

/// One shortcut: a modifier set and a key code.
#[derive(Debug, Clone, Copy, PartialEq, Eq, Structural)]
pub struct Hotkey {
    pub modifiers: HotkeyModifiers,
    pub code: KeyCode,
}

/// First position at or after `i` holding the token separator `+`, or the
/// end of the text.
pub open spec fn next_plus(s: Seq<char>, i: int) -> int
    decreases s.len() - i when 0 <= i
{
    if i < s.len() && s[i] != '+' {
        next_plus(s, i + 1)
    } else {
        i
    }
}

/// The separator position lies between `i` and the end, with no separator
/// before it.
pub proof fn lemma_next_plus_bounds(s: Seq<char>, i: int)
    requires
        0 <= i <= s.len(),
    ensures
        i <= next_plus(s, i) <= s.len(),
        forall|j: int| i <= j < next_plus(s, i) ==> s[j] != '+',
        next_plus(s, i) < s.len() ==> s[next_plus(s, i)] == '+',
    decreases s.len() - i,
{
    if i < s.len() && s[i] != '+' {
        lemma_next_plus_bounds(s, i + 1);
    }
}

/// The tokens of the shortcut string: the runs between `+` separators,
/// empties kept.
pub open spec fn split_plus_from(s: Seq<char>, i: int) -> Seq<Seq<char>>
    decreases s.len() - i when 0 <= i via split_plus_dec
{
    let j = next_plus(s, i);
    if j >= s.len() {
        seq![s.subrange(i, s.len() as int)]
    } else {
        seq![s.subrange(i, j)] + split_plus_from(s, j + 1)
    }
}

#[via_fn]
proof fn split_plus_dec(s: Seq<char>, i: int) {
    if 0 <= i {
        if i <= s.len() {
            lemma_next_plus_bounds(s, i);
        }
    }
}

/// The key named by a lowercase token, if any.
pub open spec fn key_of_char(c: char) -> Option<KeyCode> {
    match c {
        'a' => Some(KeyCode::KeyA), 'b' => Some(KeyCode::KeyB), 'c' => Some(KeyCode::KeyC),
        'd' => Some(KeyCode::KeyD), 'e' => Some(KeyCode::KeyE), 'f' => Some(KeyCode::KeyF),
        'g' => Some(KeyCode::KeyG), 'h' => Some(KeyCode::KeyH), 'i' => Some(KeyCode::KeyI),
        'j' => Some(KeyCode::KeyJ), 'k' => Some(KeyCode::KeyK), 'l' => Some(KeyCode::KeyL),
        'm' => Some(KeyCode::KeyM), 'n' => Some(KeyCode::KeyN), 'o' => Some(KeyCode::KeyO),
        'p' => Some(KeyCode::KeyP), 'q' => Some(KeyCode::KeyQ), 'r' => Some(KeyCode::KeyR),
        's' => Some(KeyCode::KeyS), 't' => Some(KeyCode::KeyT), 'u' => Some(KeyCode::KeyU),
        'v' => Some(KeyCode::KeyV), 'w' => Some(KeyCode::KeyW), 'x' => Some(KeyCode::KeyX),
        'y' => Some(KeyCode::KeyY), 'z' => Some(KeyCode::KeyZ),
        '0' => Some(KeyCode::Digit0), '1' => Some(KeyCode::Digit1),
        '2' => Some(KeyCode::Digit2), '3' => Some(KeyCode::Digit3),
        '4' => Some(KeyCode::Digit4), '5' => Some(KeyCode::Digit5),
        '6' => Some(KeyCode::Digit6), '7' => Some(KeyCode::Digit7),
        '8' => Some(KeyCode::Digit8), '9' => Some(KeyCode::Digit9),
        _ => None,
    }
}

/// The key named by a token, compared case-insensitively and untrimmed,
/// exactly as a key token is looked up.
pub open spec fn key_of(p: Seq<char>) -> Option<KeyCode> {
    let q = lower(p);
    if q.len() == 1 {
        key_of_char(q[0])
    } else if q == "space"@ {
        Some(KeyCode::Space)
    } else if q == "enter"@ || q == "return"@ {
        Some(KeyCode::Enter)
    } else if q == "tab"@ {
        Some(KeyCode::Tab)
    } else if q == "escape"@ || q == "esc"@ {
        Some(KeyCode::Escape)
    } else if q == "backspace"@ {
        Some(KeyCode::Backspace)
    } else if q == "delete"@ {
        Some(KeyCode::Delete)
    } else if q == "f1"@ {
        Some(KeyCode::F1)
    } else if q == "f2"@ {
        Some(KeyCode::F2)
    } else if q == "f3"@ {
        Some(KeyCode::F3)
    } else if q == "f4"@ {
        Some(KeyCode::F4)
    } else if q == "f5"@ {
        Some(KeyCode::F5)
    } else if q == "f6"@ {
        Some(KeyCode::F6)
    } else if q == "f7"@ {
        Some(KeyCode::F7)
    } else if q == "f8"@ {
        Some(KeyCode::F8)
    } else if q == "f9"@ {
        Some(KeyCode::F9)
    } else if q == "f10"@ {
        Some(KeyCode::F10)
    } else if q == "f11"@ {
        Some(KeyCode::F11)
    } else if q == "f12"@ {
        Some(KeyCode::F12)
    } else {
        None
    }
}

/// One token folded into the parse state: a modifier token sets its flag,
/// any other token is looked up as the key, the last one deciding.
pub open spec fn hotkey_step(
    state: (HotkeyModifiers, Option<KeyCode>),
    part: Seq<char>,
) -> (HotkeyModifiers, Option<KeyCode>) {
    let p = lower(trim_spec(part));
    let mods = state.0;
    if p == "ctrl"@ || p == "control"@ || p == "commandorcontrol"@ {
        (HotkeyModifiers { control: true, ..mods }, state.1)
    } else if p == "cmd"@ || p == "command"@ || p == "meta"@ {
        (HotkeyModifiers { meta: true, ..mods }, state.1)
    } else if p == "alt"@ || p == "option"@ {
        (HotkeyModifiers { alt: true, ..mods }, state.1)
    } else if p == "shift"@ {
        (HotkeyModifiers { shift: true, ..mods }, state.1)
    } else {
        (mods, key_of(part))
    }
}

/// The whole token list folded left to right.
pub open spec fn hotkey_fold(
    parts: Seq<Seq<char>>,
    state: (HotkeyModifiers, Option<KeyCode>),
) -> (HotkeyModifiers, Option<KeyCode>)
    decreases parts.len(),
{
    if parts.len() == 0 {
        state
    } else {
        hotkey_fold(parts.drop_first(), hotkey_step(state, parts[0]))
    }
}

/// No modifier at all.
pub open spec fn no_modifiers() -> HotkeyModifiers {
    HotkeyModifiers { control: false, meta: false, alt: false, shift: false }
}

/// The shortcut a human-readable string denotes, if it names a key.
pub open spec fn parse_hotkey_spec(s: Seq<char>) -> Option<Hotkey> {
    let state = hotkey_fold(split_plus_from(s, 0), (no_modifiers(), None));
    match state.1 {
        None => None,
        Some(code) => Some(Hotkey { modifiers: state.0, code }),
    }
}

/// A separator-free run from `i` that ends at `j` pins the next separator
/// position down to `j`.
proof fn lemma_next_plus_at(s: Seq<char>, i: int, j: int)
    requires
        0 <= i <= j <= s.len(),
        forall|k: int| i <= k < j ==> s[k] != '+',
        j == s.len() || s[j] == '+',
    ensures
        next_plus(s, i) == j,
    decreases j - i,
{
    if i < j {
        lemma_next_plus_at(s, i + 1, j);
    }
}

/// Split a shortcut string at `+` separators, empties kept.
fn split_plus(s: &[char]) -> (parts: Vec<Vec<char>>)
    ensures
        parts@.map_values(|p: Vec<char>| p@) == split_plus_from(s@, 0),
{
    let n = s.len();
    let mut parts: Vec<Vec<char>> = Vec::new();
    let mut i: usize = 0;
    let mut more = true;
    while more
        invariant
            n == s@.len(),
            i <= n,
            more ==> split_plus_from(s@, 0)
                == parts@.map_values(|p: Vec<char>| p@) + split_plus_from(s@, i as int),
            !more ==> split_plus_from(s@, 0) == parts@.map_values(|p: Vec<char>| p@),
        decreases n - i + (if more { 1int } else { 0int }),
    {
        let mut j = i;
        while j < n && s[j] != '+'
            invariant
                n == s@.len(),
                i <= j <= n,
                forall|k: int| i <= k < j ==> s@[k] != '+',
            decreases n - j,
        {
            j = j + 1;
        }
        proof {
            lemma_next_plus_at(s@, i as int, j as int);
        }
        let piece = subrange_chars(s, i, j);
        let ghost pre = parts@.map_values(|p: Vec<char>| p@);
        parts.push(piece);
        proof {
            assert(parts@.map_values(|p: Vec<char>| p@)
                =~= pre.push(s@.subrange(i as int, j as int)));
        }
        if j < n {
            proof {
                assert(pre + (seq![s@.subrange(i as int, j as int)]
                    + split_plus_from(s@, j + 1))
                    =~= pre.push(s@.subrange(i as int, j as int))
                        + split_plus_from(s@, j + 1));
            }
            i = j + 1;
        } else {
            proof {
                assert(pre + seq![s@.subrange(i as int, j as int)]
                    =~= pre.push(s@.subrange(i as int, j as int)));
            }
            more = false;
        }
    }
    parts
}

/// Does this character slice spell the given ASCII name?
fn eq_lit(p: &[char], name: &str) -> (r: bool)
    ensures
        r == (p@ == name@),
{
    let nv = str_to_chars(name);
    chars_eq(p, nv.as_slice())
}

/// The key named by one token, untrimmed, case-insensitively.
fn key_of_exec(part: &[char]) -> (r: Option<KeyCode>)
    ensures
        r == key_of(part@),
{
    let q = lower_chars(part);
    if q.len() == 1 {
        match q[0] {
            'a' => Some(KeyCode::KeyA), 'b' => Some(KeyCode::KeyB), 'c' => Some(KeyCode::KeyC),
            'd' => Some(KeyCode::KeyD), 'e' => Some(KeyCode::KeyE), 'f' => Some(KeyCode::KeyF),
            'g' => Some(KeyCode::KeyG), 'h' => Some(KeyCode::KeyH), 'i' => Some(KeyCode::KeyI),
            'j' => Some(KeyCode::KeyJ), 'k' => Some(KeyCode::KeyK), 'l' => Some(KeyCode::KeyL),
            'm' => Some(KeyCode::KeyM), 'n' => Some(KeyCode::KeyN), 'o' => Some(KeyCode::KeyO),
            'p' => Some(KeyCode::KeyP), 'q' => Some(KeyCode::KeyQ), 'r' => Some(KeyCode::KeyR),
            's' => Some(KeyCode::KeyS), 't' => Some(KeyCode::KeyT), 'u' => Some(KeyCode::KeyU),
            'v' => Some(KeyCode::KeyV), 'w' => Some(KeyCode::KeyW), 'x' => Some(KeyCode::KeyX),
            'y' => Some(KeyCode::KeyY), 'z' => Some(KeyCode::KeyZ),
            '0' => Some(KeyCode::Digit0), '1' => Some(KeyCode::Digit1),
            '2' => Some(KeyCode::Digit2), '3' => Some(KeyCode::Digit3),
            '4' => Some(KeyCode::Digit4), '5' => Some(KeyCode::Digit5),
            '6' => Some(KeyCode::Digit6), '7' => Some(KeyCode::Digit7),
            '8' => Some(KeyCode::Digit8), '9' => Some(KeyCode::Digit9),
            _ => None,
        }
    } else if eq_lit(q.as_slice(), "space") {
        Some(KeyCode::Space)
    } else if eq_lit(q.as_slice(), "enter") || eq_lit(q.as_slice(), "return") {
        Some(KeyCode::Enter)
    } else if eq_lit(q.as_slice(), "tab") {
        Some(KeyCode::Tab)
    } else if eq_lit(q.as_slice(), "escape") || eq_lit(q.as_slice(), "esc") {
        Some(KeyCode::Escape)
    } else if eq_lit(q.as_slice(), "backspace") {
        Some(KeyCode::Backspace)
    } else if eq_lit(q.as_slice(), "delete") {
        Some(KeyCode::Delete)
    } else if eq_lit(q.as_slice(), "f1") {
        Some(KeyCode::F1)
    } else if eq_lit(q.as_slice(), "f2") {
        Some(KeyCode::F2)
    } else if eq_lit(q.as_slice(), "f3") {
        Some(KeyCode::F3)
    } else if eq_lit(q.as_slice(), "f4") {
        Some(KeyCode::F4)
    } else if eq_lit(q.as_slice(), "f5") {
        Some(KeyCode::F5)
    } else if eq_lit(q.as_slice(), "f6") {
        Some(KeyCode::F6)
    } else if eq_lit(q.as_slice(), "f7") {
        Some(KeyCode::F7)
    } else if eq_lit(q.as_slice(), "f8") {
        Some(KeyCode::F8)
    } else if eq_lit(q.as_slice(), "f9") {
        Some(KeyCode::F9)
    } else if eq_lit(q.as_slice(), "f10") {
        Some(KeyCode::F10)
    } else if eq_lit(q.as_slice(), "f11") {
        Some(KeyCode::F11)
    } else if eq_lit(q.as_slice(), "f12") {
        Some(KeyCode::F12)
    } else {
        None
    }
}

/// Parse a shortcut from its human-readable form, `"Control+Shift+Space"`
/// and the like; `None` when no token names a key.
pub fn parse_hotkey(hotkey: &str) -> (r: Option<Hotkey>)
    ensures
        r == parse_hotkey_spec(hotkey@),
{
    let chars = str_to_chars(hotkey);
    let parts = split_plus(chars.as_slice());
    let ghost spec_parts = split_plus_from(hotkey@, 0);
    let mut mods = HotkeyModifiers { control: false, meta: false, alt: false, shift: false };
    let mut key: Option<KeyCode> = None;
    let mut k: usize = 0;
    proof {
        assert(spec_parts.skip(0) =~= spec_parts);
    }
    while k < parts.len()
        invariant
            spec_parts == parts@.map_values(|p: Vec<char>| p@),
            k <= parts@.len(),
            hotkey_fold(spec_parts, (no_modifiers(), None))
                == hotkey_fold(spec_parts.skip(k as int), (mods, key)),
        decreases parts@.len() - k,
    {
        let part = &parts[k];
        let trimmed = trim_chars(part.as_slice());
        let p = lower_chars(trimmed.as_slice());
        let ghost st0 = (mods, key);
        if eq_lit(p.as_slice(), "ctrl") || eq_lit(p.as_slice(), "control")
            || eq_lit(p.as_slice(), "commandorcontrol") {
            mods.control = true;
        } else if eq_lit(p.as_slice(), "cmd") || eq_lit(p.as_slice(), "command")
            || eq_lit(p.as_slice(), "meta") {
            mods.meta = true;
        } else if eq_lit(p.as_slice(), "alt") || eq_lit(p.as_slice(), "option") {
            mods.alt = true;
        } else if eq_lit(p.as_slice(), "shift") {
            mods.shift = true;
        } else {
            key = key_of_exec(part.as_slice());
        }
        proof {
            assert(spec_parts.skip(k as int)[0] == spec_parts[k as int]);
            assert((mods, key) == hotkey_step(st0, spec_parts[k as int]));
            assert(spec_parts.skip(k as int).drop_first() =~= spec_parts.skip(k + 1));
        }
        k = k + 1;
    }
    proof {
        assert(spec_parts.skip(spec_parts.len() as int) =~= Seq::<Seq<char>>::empty());
    }
    match key {
        None => None,
        Some(code) => Some(Hotkey { modifiers: mods, code }),
    }
}

} // verus!
