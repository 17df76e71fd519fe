//! The push-to-talk session state machine and the dispatcher that routes a
//! hotkey event to one of the three flows.
//!
//! Each flow — dictation, translate, voice action — owns one session whose
//! transitions are edge-triggered: a key-down starts a cycle only when the
//! active flag was clear, so key-repeat events are absorbed; a key-up stops
//! one only when the flag was set. The host performs the started cycle's
//! side effects (issue the capture command, spawn the streaming loop, run
//! the finisher) exactly when a transition reports that it fired.

use vstd::prelude::*;

use crate::hotkeys::Hotkey;

verus! {

/// The lifecycle phase of one session.
#[derive(Debug, Clone, Copy, PartialEq, Eq, Structural)]
pub enum SessionPhase {
    /// Nothing running.
    Idle,
    /// Capture in progress, between key-down and key-up.
    Recording,
    /// Key released; the finisher is still working.
    Processing,
}

/// A session's observable state: its phase and its edge-trigger flag.
#[derive(Debug, Clone, Copy, PartialEq, Eq, Structural)]
pub struct SessionState {
    pub phase: SessionPhase,
    pub active: bool,
}

/// What a key-down leaves behind, and whether it started a cycle: only a
/// clear flag starts one, so repeated key-down events are idempotent.
pub open spec fn key_down_model(s: SessionState) -> (SessionState, bool) {
    if !s.active {
        (SessionState { phase: SessionPhase::Recording, active: true }, true)
    } else {
        (s, false)
    }
}

/// What a key-up leaves behind, and whether it stopped a cycle: only a set
/// flag stops one, so a key-up with no prior key-down is a no-op.
pub open spec fn key_up_model(s: SessionState) -> (SessionState, bool) {
    if s.active {
        (SessionState { phase: SessionPhase::Processing, active: false }, true)
    } else {
        (s, false)
    }
}

/// One flow's session, cycling Idle → Recording → Processing → Idle for
/// the process lifetime.
pub struct DictationSession {
    state: SessionState,
}

impl View for DictationSession {
    type V = SessionState;

    closed spec fn view(&self) -> SessionState {
        self.state
    }
}

impl DictationSession {
    /// A fresh session: idle, flag clear.
    pub fn new() -> (s: DictationSession)
        ensures
            s@ == (SessionState { phase: SessionPhase::Idle, active: false }),
    {
        DictationSession { state: SessionState { phase: SessionPhase::Idle, active: false } }
    }

    /// The current phase, for presentation.
    pub fn phase(&self) -> (p: SessionPhase)
        ensures
            p == self@.phase,
    {
        self.state.phase
    }

    /// Is a cycle running between key-down and key-up?
    pub fn is_active(&self) -> (a: bool)
        ensures
            a == self@.active,
    {
        self.state.active
    }

    /// A physical key-down arrived: start a cycle if none runs. Returns
    /// whether this event started one — only then does the host issue the
    /// capture start and spawn the streaming loop.
    pub fn key_down(&mut self) -> (started: bool)
        ensures
            (final(self)@, started) == key_down_model(old(self)@),
    {
        if !self.state.active {
            self.state = SessionState { phase: SessionPhase::Recording, active: true };
            true
        } else {
            false
        }
    }

    /// A physical key-up arrived: stop the running cycle if one runs.
    /// Returns whether this event stopped one — only then does the host
    /// issue the capture stop and run the finisher.
    pub fn key_up(&mut self) -> (stopped: bool)
        ensures
            (final(self)@, stopped) == key_up_model(old(self)@),
    {
        if self.state.active {
            self.state = SessionState { phase: SessionPhase::Processing, active: false };
            true
        } else {
            false
        }
    }

    /// The finisher ended (or the host resets a stuck cycle): back to
    /// idle, flag clear, ready for the next key-down.
    pub fn finish(&mut self)
        ensures
            final(self)@ == (SessionState { phase: SessionPhase::Idle, active: false }),
    {
        self.state = SessionState { phase: SessionPhase::Idle, active: false };
    }
}

/// Law: transitions are edge-triggered. A second key-down right after a
/// first one changes nothing and starts nothing, whatever state the
/// session was in; and a key-up on an idle session stops nothing and
/// changes nothing.
pub proof fn lemma_edge_triggered(s: SessionState)
    ensures
        ({
            let first = key_down_model(s);
            let second = key_down_model(first.0);
            !second.1 && second.0 == first.0
        }),
        ({
            let idle = SessionState { phase: SessionPhase::Idle, active: false };
            key_up_model(idle) == (idle, false)
        }),
{
}

/// The recording-status event a phase is reported as.
pub fn status_event_name(phase: SessionPhase) -> (r: &'static str)
    ensures
        r@ == match phase {
            SessionPhase::Idle => "idle"@,
            SessionPhase::Recording => "recording"@,
            SessionPhase::Processing => "processing"@,
        },
{
    match phase {
        SessionPhase::Idle => "idle",
        SessionPhase::Recording => "recording",
        SessionPhase::Processing => "processing",
    }
}

/// Which flow a hotkey event belongs to.
#[derive(Debug, Clone, Copy, PartialEq, Eq, Structural)]
pub enum HotkeyIdentity {
    PushToTalk,
    Translate,
    VoiceAction,
}

/// Route a hotkey to its flow: each registered shortcut is compared in a
/// fixed order — dictation, then translate, then voice action — and the
/// first equal one wins; an unregistered shortcut belongs to no flow.
pub fn identify_shortcut(
    pressed: &Hotkey,
    ptt: &Option<Hotkey>,
    translate: &Option<Hotkey>,
    voice_action: &Option<Hotkey>,
) -> (r: Option<HotkeyIdentity>)
    ensures
        r == if ptt is Some && ptt->0 == *pressed {
            Some(HotkeyIdentity::PushToTalk)
        } else if translate is Some && translate->0 == *pressed {
            Some(HotkeyIdentity::Translate)
        } else if voice_action is Some && voice_action->0 == *pressed {
            Some(HotkeyIdentity::VoiceAction)
        } else {
            None::<HotkeyIdentity>
        },
{
    if hotkey_matches(ptt, pressed) {
        Some(HotkeyIdentity::PushToTalk)
    } else if hotkey_matches(translate, pressed) {
        Some(HotkeyIdentity::Translate)
    } else if hotkey_matches(voice_action, pressed) {
        Some(HotkeyIdentity::VoiceAction)
    } else {
        None
    }
}

/// Does a registered shortcut equal the pressed one?
fn hotkey_matches(registered: &Option<Hotkey>, pressed: &Hotkey) -> (r: bool)
    ensures
        r == (registered is Some && registered->0 == *pressed),
{
    match registered {
        Option::Some(h) => {
            h.modifiers.control == pressed.modifiers.control
                && h.modifiers.meta == pressed.modifiers.meta
                && h.modifiers.alt == pressed.modifiers.alt
                && h.modifiers.shift == pressed.modifiers.shift
                && h.code == pressed.code
        },
        Option::None => false,
    }
}

} // verus!
