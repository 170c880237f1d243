//! Raw input events and the timeout-bounded multi-key sequence recognizer.
use vstd::prelude::*;

verus! {

/// What the main loop should do after one event has been handled.
#[derive(Clone, Copy, Debug, PartialEq, Eq)]
pub enum EventResult {
    Quit,
    Redraw,
    Continue,
}

/// The key a keyboard event carries, reduced to what the router reads.
#[derive(Clone, Copy, Debug, PartialEq, Eq)]
pub enum KeyCode {
    /// A printable character key.
    Char(char),
    /// Any other key (arrows, function keys, ...).
    Other,
}

/// The modifier combination held during a keyboard event, reduced to the
/// classes the router distinguishes.
#[derive(Clone, Copy, Debug, PartialEq, Eq)]
pub enum KeyModifiers {
    /// No modifier was held.
    Empty,
    /// Exactly the control modifier was held.
    Control,
    /// Any other modifier combination.
    Other,
}

/// A keyboard event as the router reads it.
#[derive(Clone, Copy, Debug, PartialEq, Eq)]
pub struct KeyEvent {
    pub code: KeyCode,
    pub modifiers: KeyModifiers,
}

/// A raw input event entering the router.
#[derive(Clone, Copy, Debug, PartialEq, Eq)]
pub enum Event {
    Keyboard(KeyEvent),
    /// Mouse events are never consumed by this core; a region-aware widget
    /// dispatcher outside of it is responsible for them.
    Mouse,
}

/// Whether the router consumed an event or left it to other consumers.
#[derive(Clone, Copy, Debug, PartialEq, Eq)]
pub enum Status {
    Captured,
    Ignored,
}

/// Where a sequence recognizer stands between keystrokes.
#[derive(Clone, Copy, Debug, PartialEq, Eq)]
pub enum MultiKeyState {
    /// Currently not waiting on any next input.
    Idle,
    /// Waiting for the next input.
    Waiting {
        /// When the first character of the pattern was accepted, in
        /// milliseconds. The whole gesture is bounded by one timeout window
        /// anchored here; the timer is not refreshed on partial matches.
        trigger_instant: u64,
        /// How far the match has advanced: pattern characters
        /// `0 ..= checked_index` have matched so far.
        checked_index: usize,
    },
}

/// The possible outcomes of feeding one character to a recognizer.
#[derive(Clone, Copy, Debug, PartialEq, Eq)]
pub enum MultiKeyResult {
    /// The character was accepted but the sequence is not complete yet.
    Accepted,
    /// The character was accepted and completes the sequence.
    Completed,
    /// The character broke the sequence, or no sequence could start with it.
    Rejected,
}

/// Whether a gesture anchored at `trigger_instant` has outlived `timeout`
/// at `now` (all in milliseconds). Instants come from a monotonic clock, so
/// a `now` at or before the anchor means no time has elapsed.
pub open spec fn expired(trigger_instant: u64, now: u64, timeout: u64) -> bool {
    trigger_instant < now && now - trigger_instant > timeout
}

/// A per-keybinding state machine detecting an ordered pattern of
/// characters typed within one bounded time window.
pub struct MultiKey {
    state: MultiKeyState,
    pattern: Vec<char>,
    timeout: u64,
}

impl MultiKey {
    /// Where the recognizer stands between keystrokes.
    pub closed spec fn spec_state(self) -> MultiKeyState {
        self.state
    }

    /// The registered pattern.
    pub closed spec fn spec_pattern(self) -> Seq<char> {
        self.pattern@
    }

    /// The registered timeout, in milliseconds.
    pub closed spec fn spec_timeout(self) -> u64 {
        self.timeout
    }

    /// Well-formedness: the pattern is non-empty, and a waiting recognizer
    /// has matched strictly less than the whole pattern.
    pub open spec fn wf(self) -> bool {
        &&& self.spec_pattern().len() >= 1
        &&& (self.spec_state() matches MultiKeyState::Waiting { checked_index, .. }
                ==> checked_index < self.spec_pattern().len())
    }

    /// How an idle recognizer reacts to `c` at `now`: the pattern's first
    /// character starts a fresh window, anything else is rejected.
    pub open spec fn fresh_step(self, c: char, now: u64) -> (MultiKeyState, MultiKeyResult) {
        if self.spec_pattern().len() > 0 && self.spec_pattern()[0] == c {
            (
                MultiKeyState::Waiting { trigger_instant: now, checked_index: 0 },
                MultiKeyResult::Accepted,
            )
        } else {
            (MultiKeyState::Idle, MultiKeyResult::Rejected)
        }
    }

    /// The full transition on one character typed at `now`. An expired
    /// window is reset first and the same character is then re-evaluated as
    /// from idle, so a timed-out gesture never blocks the character that
    /// exposed the timeout. A match that reaches the last pattern index
    /// completes and resets; a mismatch or an index past the pattern resets
    /// and rejects.
    pub open spec fn step(self, c: char, now: u64) -> (MultiKeyState, MultiKeyResult) {
        match self.spec_state() {
            MultiKeyState::Idle => self.fresh_step(c, now),
            MultiKeyState::Waiting { trigger_instant, checked_index } => {
                if expired(trigger_instant, now, self.spec_timeout()) {
                    self.fresh_step(c, now)
                } else if checked_index + 1 < self.spec_pattern().len()
                        && self.spec_pattern()[checked_index + 1] == c {
                    if checked_index + 1 == self.spec_pattern().len() - 1 {
                        (MultiKeyState::Idle, MultiKeyResult::Completed)
                    } else {
                        (
                            MultiKeyState::Waiting {
                                trigger_instant,
                                checked_index: (checked_index + 1) as usize,
                            },
                            MultiKeyResult::Accepted,
                        )
                    }
                } else {
                    (MultiKeyState::Idle, MultiKeyResult::Rejected)
                }
            }
        }
    }

    /// Creates a recognizer in the idle state for a non-empty `pattern`,
    /// with each gesture bounded by `timeout` milliseconds.
    pub fn register(pattern: Vec<char>, timeout: u64) -> (recognizer: MultiKey)
        requires
            pattern@.len() >= 1,
        ensures
            recognizer.wf(),
            recognizer.spec_state() is Idle,
            recognizer.spec_pattern() == pattern@,
            recognizer.spec_timeout() == timeout,
    {
        MultiKey { state: MultiKeyState::Idle, pattern, timeout }
    }

    /// Resets to an idle state.
    fn reset(&mut self)
        ensures
            final(self).spec_state() is Idle,
            final(self).spec_pattern() == old(self).spec_pattern(),
            final(self).spec_timeout() == old(self).spec_timeout(),
    {
        self.state = MultiKeyState::Idle;
    }

    /// Handles a character as from the idle state.
    fn fresh_input(&mut self, c: char, now: u64) -> (result: MultiKeyResult)
        requires
            old(self).wf(),
        ensures
            final(self).wf(),
            final(self).spec_pattern() == old(self).spec_pattern(),
            final(self).spec_timeout() == old(self).spec_timeout(),
            final(self).spec_state() == old(self).fresh_step(c, now).0,
            result == old(self).fresh_step(c, now).1,
    {
        if self.pattern[0] == c {
            self.state = MultiKeyState::Waiting { trigger_instant: now, checked_index: 0 };
            MultiKeyResult::Accepted
        } else {
            self.state = MultiKeyState::Idle;
            MultiKeyResult::Rejected
        }
    }

    /// Feeds one character typed at `now` (milliseconds) to the recognizer
    /// and reports whether it was accepted, completed the pattern, or was
    /// rejected. A recognizer only times out upon this call: if it has, it
    /// first resets and then re-checks the same character as from idle.
    pub fn input(&mut self, c: char, now: u64) -> (result: MultiKeyResult)
        requires
            old(self).wf(),
        ensures
            final(self).wf(),
            final(self).spec_pattern() == old(self).spec_pattern(),
            final(self).spec_timeout() == old(self).spec_timeout(),
            final(self).spec_state() == old(self).step(c, now).0,
            result == old(self).step(c, now).1,
    {
        match self.state {
            MultiKeyState::Idle => self.fresh_input(c, now),
            MultiKeyState::Waiting { trigger_instant, checked_index } => {
                let pattern_len = self.pattern.len();
                if trigger_instant < now && now - trigger_instant > self.timeout {
                    // Expired: reset, then re-evaluate the same character as
                    // from idle, in one bounded retry instead of recursion.
                    self.reset();
                    self.fresh_input(c, now)
                } else if checked_index + 1 < pattern_len
                        && self.pattern[checked_index + 1] == c {
                    if checked_index + 1 == pattern_len - 1 {
                        self.reset();
                        MultiKeyResult::Completed
                    } else {
                        self.state = MultiKeyState::Waiting {
                            trigger_instant,
                            checked_index: checked_index + 1,
                        };
                        MultiKeyResult::Accepted
                    }
                } else {
                    self.reset();
                    MultiKeyResult::Rejected
                }
            }
        }
    }
}

} // verus!
