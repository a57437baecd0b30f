//! The cursor-blink state machine.
//!
//! Cosmetic and independent of the buffer: any edit or navigation keypress
//! forces the cursor visible, a key release arms a delayed return to
//! blinking, and in the blinking state the cursor follows a fixed cycle
//! measured from the last transition timestamp. The render decision is a
//! pure function of the state and the current time; it never touches buffer
//! content.

use vstd::prelude::*;

verus! {

/// Milliseconds of the blink cycle during which the cursor is shown.
pub const BLINK_SHOWN_MS: u64 = 400;

/// Milliseconds after which the blink cycle restarts.
pub const BLINK_CYCLE_MS: u64 = 1000;

/// Milliseconds spent in `TriggeredBlinking` before blinking resumes.
pub const BLINK_TRIGGER_MS: u64 = 500;

/// The cursor-visibility states.
#[derive(Clone, Copy, PartialEq, Eq, Structural, Debug)]
pub enum BlinkState {
    /// Forced on during and just after a keypress.
    Visible,
    /// Periodic cycle: shown, then hidden, then the cycle restarts.
    Blinking,
    /// Entered on key release; blinking resumes after a fixed delay, and the
    /// cursor is shown throughout.
    TriggeredBlinking,
}

/// The mathematical value of a `Blink`.
pub ghost struct BlinkView {
    pub state: BlinkState,
    /// Timestamp of the last transition, in milliseconds.
    pub last_press: nat,
}

/// Any edit or navigation keypress forces the cursor visible.
pub open spec fn press_spec(v: BlinkView) -> BlinkView {
    BlinkView { state: BlinkState::Visible, ..v }
}

/// A key release arms the delayed return to blinking.
pub open spec fn release_spec(v: BlinkView) -> BlinkView {
    BlinkView { state: BlinkState::TriggeredBlinking, ..v }
}

/// One render decision at time `now` (milliseconds): the successor state,
/// the new last-transition timestamp, and whether the cursor is shown. The
/// elapsed time saturates at zero if the clock ever reads below the stored
/// timestamp.
pub open spec fn tick_spec(v: BlinkView, now: nat) -> (BlinkView, bool) {
    let elapsed: nat = if now >= v.last_press {
        (now - v.last_press) as nat
    } else {
        0
    };
    match v.state {
        BlinkState::Visible => (BlinkView { state: v.state, last_press: now }, true),
        BlinkState::Blinking => {
            if elapsed < BLINK_SHOWN_MS {
                (v, true)
            } else if elapsed > BLINK_CYCLE_MS {
                (BlinkView { state: v.state, last_press: now }, false)
            } else {
                (v, false)
            }
        },
        BlinkState::TriggeredBlinking => {
            if elapsed > BLINK_TRIGGER_MS {
                (BlinkView { state: BlinkState::Blinking, ..v }, true)
            } else {
                (v, true)
            }
        },
    }
}

/// The cursor-blink state plus the timestamp of its last transition.
pub struct Blink {
    state: BlinkState,
    last_press: u64,
}

impl View for Blink {
    type V = BlinkView;

    closed spec fn view(&self) -> BlinkView {
        BlinkView { state: self.state, last_press: self.last_press as nat }
    }
}

impl Blink {
    /// Start out blinking, with the given current time.
    pub fn new(now_ms: u64) -> (b: Blink)
        ensures
            b@.state == BlinkState::Blinking,
            b@.last_press == now_ms as nat,
    {
        Blink { state: BlinkState::Blinking, last_press: now_ms }
    }

    /// An edit or navigation keypress: force the cursor visible.
    pub fn press(&mut self)
        ensures
            final(self)@ == press_spec(old(self)@),
    {
        self.state = BlinkState::Visible;
    }

    /// A key release: arm the delayed return to blinking.
    pub fn release(&mut self)
        ensures
            final(self)@ == release_spec(old(self)@),
    {
        self.state = BlinkState::TriggeredBlinking;
    }

    /// Decide whether the cursor is shown at time `now_ms` and advance the
    /// state machine.
    pub fn tick(&mut self, now_ms: u64) -> (shown: bool)
        ensures
            final(self)@ == tick_spec(old(self)@, now_ms as nat).0,
            shown == tick_spec(old(self)@, now_ms as nat).1,
    {
        match self.state {
            BlinkState::Visible => {
                self.last_press = now_ms;
                true
            },
            BlinkState::Blinking => {
                let elapsed = now_ms.saturating_sub(self.last_press);
                if elapsed < BLINK_SHOWN_MS {
                    true
                } else if elapsed > BLINK_CYCLE_MS {
                    self.last_press = now_ms;
                    false
                } else {
                    false
                }
            },
            BlinkState::TriggeredBlinking => {
                let elapsed = now_ms.saturating_sub(self.last_press);
                if elapsed > BLINK_TRIGGER_MS {
                    self.state = BlinkState::Blinking;
                }
                true
            },
        }
    }

    /// The current blink state.
    pub fn state(&self) -> (s: BlinkState)
        ensures
            s == self@.state,
    {
        self.state
    }
}

} // verus!
