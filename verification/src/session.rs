//! The overlay's phases and how it answers the user. A selection is drawn,
//! Enter records it (at once, or after a countdown of whole seconds), and
//! Esc, the Stop button or a second invocation ends the session. The phase
//! freezes the selection while a countdown or a recording runs, so the hole
//! never moves away from the geometry being captured.

use vstd::prelude::*;
use crate::controls::Settings;
use crate::transcode::Format;

verus! {

/// The overlay's state: whether a recording is running, and the seconds a
/// countdown still has to show, if one is in progress.
#[derive(Clone, Copy, Debug, PartialEq, Eq, Structural)]
pub struct Session {
    pub recording: bool,
    pub countdown: Option<u32>,
}

/// The keys the overlay reacts to.
#[derive(Clone, Copy, Debug, PartialEq, Eq, Structural)]
pub enum Key {
    Enter,
    Escape,
    Other,
}

/// What the caller does in answer to a key.
#[derive(Clone, Copy, Debug, PartialEq, Eq, Structural)]
pub enum KeyAction {
    /// Nothing.
    Ignore,
    /// Start the recorder on the selection now.
    BeginRecording,
    /// Show this number over the selection and tick once a second.
    StartCountdown(u32),
    /// Stop any recording and quit.
    Quit,
}

/// What the caller does when the countdown timer fires.
#[derive(Clone, Copy, Debug, PartialEq, Eq, Structural)]
pub enum TickAction {
    /// Redraw the new number and keep the timer running.
    Continue,
    /// Clear the number, start the recorder, and stop the timer.
    BeginRecording,
}

/// The state after a key and the action it asks for, and whether the key
/// is consumed (not passed on to the focused widget).
pub open spec fn on_key_spec(s: Session, key: Key, has_selection: bool, delay_secs: u32) -> (
    Session,
    KeyAction,
    bool,
) {
    match key {
        Key::Enter => if !s.recording && s.countdown is None && has_selection {
            if delay_secs == 0 {
                (s, KeyAction::BeginRecording, true)
            } else {
                (Session { countdown: Some(delay_secs), ..s }, KeyAction::StartCountdown(delay_secs), true)
            }
        } else {
            (s, KeyAction::Ignore, true)
        },
        Key::Escape => (s, KeyAction::Quit, true),
        Key::Other => (s, KeyAction::Ignore, false),
    }
}

/// The state after a countdown tick, and what the caller does.
pub open spec fn on_tick_spec(s: Session) -> (Session, TickAction) {
    match s.countdown {
        Some(v) if v > 1 => (Session { countdown: Some((v - 1) as u32), ..s }, TickAction::Continue),
        _ => (Session { countdown: None, ..s }, TickAction::BeginRecording),
    }
}

impl Session {
    /// The state at launch: nothing recording, no countdown.
    pub fn new() -> (r: Session)
        ensures
            r == (Session { recording: false, countdown: None }),
    {
        Session { recording: false, countdown: None }
    }

    /// Answers a key. Enter records the selection (after the countdown when
    /// `delay_secs` is not zero) unless a recording or a countdown is already
    /// running or nothing is selected; Esc quits; Enter and Esc are always
    /// consumed, other keys pass on.
    pub fn on_key(self, key: Key, has_selection: bool, delay_secs: u32) -> (r: (Session, KeyAction, bool))
        ensures
            r == on_key_spec(self, key, has_selection, delay_secs),
            key == Key::Enter && !has_selection ==> r == (self, KeyAction::Ignore, true),
            key == Key::Enter && (self.recording || self.countdown is Some) ==> r == (
                self,
                KeyAction::Ignore,
                true,
            ),
            key == Key::Enter && has_selection && !self.recording && self.countdown is None
                && delay_secs == 0 ==> r == (self, KeyAction::BeginRecording, true),
            key == Key::Enter && has_selection && !self.recording && self.countdown is None
                && delay_secs > 0 ==> r == (
                Session { recording: false, countdown: Some(delay_secs) },
                KeyAction::StartCountdown(delay_secs),
                true,
            ),
            key == Key::Escape ==> r == (self, KeyAction::Quit, true),
            key == Key::Other ==> r == (self, KeyAction::Ignore, false),
    {
        match key {
            Key::Enter => {
                if !self.recording && self.countdown.is_none() && has_selection {
                    if delay_secs == 0 {
                        (self, KeyAction::BeginRecording, true)
                    } else {
                        (
                            Session { recording: self.recording, countdown: Some(delay_secs) },
                            KeyAction::StartCountdown(delay_secs),
                            true,
                        )
                    }
                } else {
                    (self, KeyAction::Ignore, true)
                }
            },
            Key::Escape => (self, KeyAction::Quit, true),
            Key::Other => (self, KeyAction::Ignore, false),
        }
    }

    /// Advances the countdown by one second: the number goes down while it
    /// is above one; at one (or with no countdown) the number is cleared and
    /// the recording begins.
    pub fn on_tick(self) -> (r: (Session, TickAction))
        ensures
            r == on_tick_spec(self),
            r.0.recording == self.recording,
            (self.countdown is Some && self.countdown->0 > 1) ==> r == (
                Session { recording: self.recording, countdown: Some((self.countdown->0 - 1) as u32) },
                TickAction::Continue,
            ),
            !(self.countdown is Some && self.countdown->0 > 1) ==> r == (
                Session { recording: self.recording, countdown: None },
                TickAction::BeginRecording,
            ),
    {
        match self.countdown {
            Some(v) => {
                if v > 1 {
                    return (
                        Session { recording: self.recording, countdown: Some(v - 1) },
                        TickAction::Continue,
                    );
                }
            },
            None => {},
        }
        (Session { recording: self.recording, countdown: None }, TickAction::BeginRecording)
    }

    /// Records the outcome of starting the recorder: on success the session
    /// is recording; on failure it is unchanged and the user may try again.
    pub fn on_record_started(self, started: bool) -> (r: Session)
        ensures
            started ==> r == (Session { recording: true, ..self }),
            !started ==> r == self,
    {
        if started {
            Session { recording: true, countdown: self.countdown }
        } else {
            self
        }
    }

    /// Whether a drag may change the selection: not while recording or
    /// counting down.
    pub fn accepts_drag(self) -> (r: bool)
        ensures
            r <==> (!self.recording && self.countdown is None),
    {
        !self.recording && self.countdown.is_none()
    }

    /// What ending the session does: when a recording runs, it is stopped
    /// and transcoded to the chosen format; otherwise the overlay just quits.
    pub fn on_quit(self, settings: &Settings) -> (r: Option<Format>)
        ensures
            self.recording ==> r == Some(settings.format),
            !self.recording ==> r is None,
    {
        if self.recording {
            Some(settings.format)
        } else {
            None
        }
    }
}

/// The state after `k` countdown ticks.
pub open spec fn after_ticks(s: Session, k: nat) -> Session
    decreases k,
{
    if k == 0 {
        s
    } else {
        on_tick_spec(after_ticks(s, (k - 1) as nat)).0
    }
}

/// A countdown from `n` shows `n, n-1, ..., 1` and begins the recording on
/// exactly the `n`-th tick: each earlier tick only lowers the number, so the
/// recorder is never started while a number is on screen.
pub proof fn lemma_countdown_begins_on_last_tick(s: Session, n: u32, k: nat)
    requires
        s.countdown == Some(n),
        n >= 1,
        k < n,
    ensures
        after_ticks(s, k) == (Session { countdown: Some((n - k) as u32), ..s }),
        k + 1 < n ==> on_tick_spec(after_ticks(s, k)).1 == TickAction::Continue,
        k + 1 == n ==> on_tick_spec(after_ticks(s, k)).1 == TickAction::BeginRecording,
        k + 1 == n ==> after_ticks(s, k + 1) == (Session { countdown: None, ..s }),
    decreases k,
{
    if k > 0 {
        lemma_countdown_begins_on_last_tick(s, n, (k - 1) as nat);
    }
}

/// While a countdown or a recording runs, Enter starts nothing and drags are
/// refused, so the selection stays the geometry being captured.
pub proof fn lemma_busy_session_is_frozen(s: Session, has_selection: bool, delay_secs: u32)
    requires
        s.recording || s.countdown is Some,
    ensures
        on_key_spec(s, Key::Enter, has_selection, delay_secs).0 == s,
        on_key_spec(s, Key::Enter, has_selection, delay_secs).1 == KeyAction::Ignore,
{
}

/// How the overlay answers each key, in every state: Enter with nothing
/// selected, or while a countdown or recording runs, changes nothing and asks
/// for nothing; Enter on a selection in an idle session records now (no
/// delay) or starts a countdown from the delay; Esc quits; other keys pass
/// through untouched.
pub proof fn lemma_key_rules(s: Session, has_selection: bool, d: u32)
    ensures
        on_key_spec(s, Key::Enter, false, d) == (s, KeyAction::Ignore, true),
        (s.recording || s.countdown is Some) ==> on_key_spec(s, Key::Enter, has_selection, d) == (
            s,
            KeyAction::Ignore,
            true,
        ),
        (has_selection && !s.recording && s.countdown is None && d == 0) ==> on_key_spec(
            s,
            Key::Enter,
            has_selection,
            d,
        ) == (s, KeyAction::BeginRecording, true),
        (has_selection && !s.recording && s.countdown is None && d > 0) ==> on_key_spec(
            s,
            Key::Enter,
            has_selection,
            d,
        ) == (Session { recording: false, countdown: Some(d) }, KeyAction::StartCountdown(d), true),
        on_key_spec(s, Key::Escape, has_selection, d) == (s, KeyAction::Quit, true),
        on_key_spec(s, Key::Other, has_selection, d) == (s, KeyAction::Ignore, false),
{
}

/// Esc always ends the session, in every phase.
pub proof fn lemma_escape_always_quits(s: Session, has_selection: bool, delay_secs: u32)
    ensures
        on_key_spec(s, Key::Escape, has_selection, delay_secs).1 == KeyAction::Quit,
{
}

} // verus!
