//! Keyboard-event decoder.
//!
//! Terminals transmit an arrow key as an escape byte immediately followed by
//! `[` and a letter, while a lone Escape press produces only the escape byte.
//! The only observable signal that tells the two apart is inter-byte timing,
//! so the decoder is a timed state machine: a pending escape that sees no
//! follow-up byte within [`ESCAPE_TIMEOUT_MS`] resolves to a standalone
//! cancel.

use vstd::prelude::*;

verus! {

/// How long a pending escape waits for a follow-up byte before it is taken
/// as a standalone Escape press.  Tunable for terminal and link latency: it
/// must absorb realistic escape-sequence transmission delay while keeping a
/// lone Escape responsive.
pub const ESCAPE_TIMEOUT_MS: u64 = 50;

/// A raw key token read from the terminal in raw mode.
#[derive(Clone, Copy, Debug, PartialEq, Eq, Structural)]
pub enum RawKey {
    /// The escape byte.
    Esc,
    /// A printable character, or `'\n'` for the enter key.
    Char(char),
    /// The backspace key.
    Backspace,
    /// Ctrl-C.
    CtrlC,
    /// Ctrl-D.
    CtrlD,
}

/// A logical input event produced by the decoder.
#[derive(Clone, Copy, Debug, PartialEq, Eq, Structural)]
pub enum Event {
    /// Append a character to the query.
    Insert(char),
    /// Remove the last character of the query.
    Backspace,
    /// Move the selection up.
    NavigateUp,
    /// Move the selection down.
    NavigateDown,
    /// Accept the current selection.
    Confirm,
    /// Abandon the session.
    Cancel,
}

/// Decoder state.  The timestamp (milliseconds, from any monotonic clock)
/// records when the pending escape began.
#[derive(Clone, Copy, Debug, PartialEq, Eq, Structural)]
pub enum DecoderState {
    Idle,
    PendingEscape(u64),
    PendingBracket(u64),
}

/// What a raw key yields when the decoder is idle.
pub open spec fn spec_idle_step(key: RawKey, now: u64) -> (DecoderState, Option<Event>) {
    match key {
        RawKey::Esc => (DecoderState::PendingEscape(now), None),
        RawKey::Char(c) => if c == '\n' {
            (DecoderState::Idle, Some(Event::Confirm))
        } else {
            (DecoderState::Idle, Some(Event::Insert(c)))
        },
        RawKey::Backspace => (DecoderState::Idle, Some(Event::Backspace)),
        RawKey::CtrlC => (DecoderState::Idle, Some(Event::Cancel)),
        RawKey::CtrlD => (DecoderState::Idle, Some(Event::Cancel)),
    }
}

/// The decoder's transition relation for an arriving key.
///
/// Ctrl-C and Ctrl-D cancel from any state.  A pending escape followed by
/// `[` waits for the arrow letter; followed by anything else, the escape
/// sequence is abandoned and the stray token is re-dispatched as if the
/// decoder had been idle.  An unrecognized sequence tail is silently
/// discarded.
pub open spec fn spec_step(state: DecoderState, key: RawKey, now: u64) -> (DecoderState, Option<
    Event,
>) {
    match state {
        DecoderState::Idle => spec_idle_step(key, now),
        DecoderState::PendingEscape(t) => match key {
            RawKey::CtrlC => (DecoderState::Idle, Some(Event::Cancel)),
            RawKey::CtrlD => (DecoderState::Idle, Some(Event::Cancel)),
            RawKey::Char(c) => if c == '[' {
                (DecoderState::PendingBracket(t), None)
            } else {
                spec_idle_step(key, now)
            },
            _ => spec_idle_step(key, now),
        },
        DecoderState::PendingBracket(t) => match key {
            RawKey::CtrlC => (DecoderState::Idle, Some(Event::Cancel)),
            RawKey::CtrlD => (DecoderState::Idle, Some(Event::Cancel)),
            RawKey::Char(c) => if c == 'A' {
                (DecoderState::Idle, Some(Event::NavigateUp))
            } else if c == 'B' {
                (DecoderState::Idle, Some(Event::NavigateDown))
            } else {
                (DecoderState::Idle, None)
            },
            _ => (DecoderState::Idle, None),
        },
    }
}

/// The decoder's timeout check, used when no key is available: a pending
/// escape older than the timeout resolves to a standalone cancel.
pub open spec fn spec_poll_timeout(state: DecoderState, now: u64) -> (DecoderState, Option<
    Event,
>) {
    match state {
        DecoderState::Idle => (DecoderState::Idle, None),
        DecoderState::PendingEscape(t) => if now > t && now - t > ESCAPE_TIMEOUT_MS {
            (DecoderState::Idle, Some(Event::Cancel))
        } else {
            (state, None)
        },
        DecoderState::PendingBracket(t) => if now > t && now - t > ESCAPE_TIMEOUT_MS {
            (DecoderState::Idle, Some(Event::Cancel))
        } else {
            (state, None)
        },
    }
}

/// Feed one raw key, read at time `now`, to the decoder.
pub fn step(state: DecoderState, key: RawKey, now: u64) -> (r: (DecoderState, Option<Event>))
    ensures
        r == spec_step(state, key, now),
{
    match state {
        DecoderState::Idle => idle_step(key, now),
        DecoderState::PendingEscape(t) => match key {
            RawKey::CtrlC => (DecoderState::Idle, Some(Event::Cancel)),
            RawKey::CtrlD => (DecoderState::Idle, Some(Event::Cancel)),
            RawKey::Char(c) => if c == '[' {
                (DecoderState::PendingBracket(t), None)
            } else {
                idle_step(key, now)
            },
            _ => idle_step(key, now),
        },
        DecoderState::PendingBracket(_) => match key {
            RawKey::CtrlC => (DecoderState::Idle, Some(Event::Cancel)),
            RawKey::CtrlD => (DecoderState::Idle, Some(Event::Cancel)),
            RawKey::Char(c) => if c == 'A' {
                (DecoderState::Idle, Some(Event::NavigateUp))
            } else if c == 'B' {
                (DecoderState::Idle, Some(Event::NavigateDown))
            } else {
                (DecoderState::Idle, None)
            },
            _ => (DecoderState::Idle, None),
        },
    }
}

fn idle_step(key: RawKey, now: u64) -> (r: (DecoderState, Option<Event>))
    ensures
        r == spec_idle_step(key, now),
{
    match key {
        RawKey::Esc => (DecoderState::PendingEscape(now), None),
        RawKey::Char(c) => if c == '\n' {
            (DecoderState::Idle, Some(Event::Confirm))
        } else {
            (DecoderState::Idle, Some(Event::Insert(c)))
        },
        RawKey::Backspace => (DecoderState::Idle, Some(Event::Backspace)),
        RawKey::CtrlC => (DecoderState::Idle, Some(Event::Cancel)),
        RawKey::CtrlD => (DecoderState::Idle, Some(Event::Cancel)),
    }
}

/// Resolve a pending escape that has outlived the timeout.  Called on loop
/// iterations that found no key available.
pub fn poll_timeout(state: DecoderState, now: u64) -> (r: (DecoderState, Option<Event>))
    ensures
        r == spec_poll_timeout(state, now),
{
    match state {
        DecoderState::Idle => (DecoderState::Idle, None),
        DecoderState::PendingEscape(t) => if now > t && now - t > ESCAPE_TIMEOUT_MS {
            (DecoderState::Idle, Some(Event::Cancel))
        } else {
            (state, None)
        },
        DecoderState::PendingBracket(t) => if now > t && now - t > ESCAPE_TIMEOUT_MS {
            (DecoderState::Idle, Some(Event::Cancel))
        } else {
            (state, None)
        },
    }
}

/// The sequence `Escape`, `'['`, `'A'`, each byte arriving before the
/// pending escape times out, yields exactly one `NavigateUp` event, no
/// `Cancel`, and leaves the decoder idle; intermediate timeout checks emit
/// nothing.
pub proof fn lemma_arrow_sequence(t0: u64, t1: u64, t2: u64, p1: u64, p2: u64)
    requires
        t0 <= p1 <= t0 + ESCAPE_TIMEOUT_MS,
        t0 <= p2 <= t0 + ESCAPE_TIMEOUT_MS,
    ensures
        ({
            let (s1, e1) = spec_step(DecoderState::Idle, RawKey::Esc, t0);
            let (s2, e2) = spec_step(s1, RawKey::Char('['), t1);
            let (s3, e3) = spec_step(s2, RawKey::Char('A'), t2);
            e1 == None::<Event> && e2 == None::<Event> && e3 == Some(Event::NavigateUp)
                && s3 == DecoderState::Idle && spec_poll_timeout(s1, p1).1 == None::<Event>
                && spec_poll_timeout(s2, p2).1 == None::<Event>
        }),
{
}

/// A lone Escape press followed by a gap that exceeds the timeout, with no
/// further bytes, yields exactly one `Cancel` event: the first timeout check
/// past the threshold emits it, and the decoder is idle afterwards, so a
/// later check emits nothing.
pub proof fn lemma_lone_escape_times_out(t0: u64, now: u64, later: u64)
    requires
        now > t0,
        now - t0 > ESCAPE_TIMEOUT_MS,
    ensures
        ({
            let (s1, e1) = spec_step(DecoderState::Idle, RawKey::Esc, t0);
            let (s2, e2) = spec_poll_timeout(s1, now);
            e1 == None::<Event> && e2 == Some(Event::Cancel) && s2 == DecoderState::Idle
                && spec_poll_timeout(s2, later).1 == None::<Event>
        }),
{
}

} // verus!
