use vstd::prelude::*;

use crate::pet::TICK_RATE_HZ;
use crate::random::{is_ascii_alphanumeric, random_alphanumeric, random_in};
use crate::timer::{due, is_due, timer_ok};

verus! {

/// The shortest text that is typed.
pub const MIN_TEXT_LEN: u32 = 16;

/// One more than the longest text that is typed.
pub const MAX_TEXT_LEN: u32 = 56;

/// How often, in seconds, the pet types in the standard setting.
pub const TYPE_PERIOD_SECS: u64 = 4;

/// Whether `s` is a text the pet may type: `16 <= len < 56`, letters and
/// digits only.
pub open spec fn text_ok(s: Seq<char>) -> bool {
    &&& MIN_TEXT_LEN <= s.len() < MAX_TEXT_LEN
    &&& forall|i: int| 0 <= i < s.len() ==> is_ascii_alphanumeric(#[trigger] s[i])
}

/// A burst of synthetic typing, with the sound cues around it.
#[derive(Clone, Debug, PartialEq, Eq)]
pub struct Emission {
    /// What to type.
    pub text: String,
    /// Whether to play the cue before typing.
    pub cue_before: bool,
    /// Whether to play the cue after typing.
    pub cue_after: bool,
}

/// Draws a random text of letters and digits, of a length drawn from
/// `16..56`, to be typed between two cues.
pub fn keyboard_type() -> (r: Emission)
    ensures
        text_ok(r.text@),
        r.cue_before,
        r.cue_after,
{
    let len = random_in(MIN_TEXT_LEN, MAX_TEXT_LEN);
    let text = random_alphanumeric(len as usize);
    Emission { text, cue_before: true, cue_after: true }
}

/// When and how the pet types.
#[derive(Clone, Copy, Debug, PartialEq, Eq)]
pub struct Emitter {
    /// The period of the typing timer, in seconds.
    pub period_secs: u64,
    /// The tick rate of the simulation, in ticks per second.
    pub tick_rate_hz: u64,
    /// When the timer is due, the pet types with a chance of one in this.
    pub one_in: u32,
    pub cue_before: bool,
    pub cue_after: bool,
}

impl Emitter {
    pub open spec fn wf(self) -> bool {
        &&& timer_ok(self.period_secs, self.tick_rate_hz)
        &&& self.one_in > 0
    }

    /// Whether the typing timer is due at `elapsed_ticks`.
    pub open spec fn due_at(self, elapsed_ticks: u64) -> bool {
        due(elapsed_ticks, self.period_secs, self.tick_rate_hz)
    }

    /// The standard setting: every 4 seconds at 60 ticks a second, always,
    /// with a cue before and after.
    pub fn standard() -> (r: Emitter)
        ensures
            r.wf(),
            r.period_secs == TYPE_PERIOD_SECS,
            r.tick_rate_hz == TICK_RATE_HZ,
            r.one_in == 1,
            r.cue_before,
            r.cue_after,
    {
        Emitter {
            period_secs: TYPE_PERIOD_SECS,
            tick_rate_hz: TICK_RATE_HZ,
            one_in: 1,
            cue_before: true,
            cue_after: true,
        }
    }

    /// Whether the typing timer is due at `elapsed_ticks`.
    pub fn fires(&self, elapsed_ticks: u64) -> (r: bool)
        requires
            self.wf(),
        ensures
            r == self.due_at(elapsed_ticks),
    {
        is_due(elapsed_ticks, self.period_secs, self.tick_rate_hz)
    }

    /// What the emitter does at `elapsed_ticks` given the chance draw `draw`
    /// (from `0..one_in`) and a drawn `text`: it types `text` when the timer
    /// is due and the draw is 0.
    pub fn emit_with(&self, elapsed_ticks: u64, draw: u32, text: String) -> (r: Option<Emission>)
        requires
            self.wf(),
        ensures
            r == (if self.due_at(elapsed_ticks) && draw == 0 {
                Some(Emission { text, cue_before: self.cue_before, cue_after: self.cue_after })
            } else {
                None
            }),
    {
        if self.fires(elapsed_ticks) && draw == 0 {
            Some(Emission { text, cue_before: self.cue_before, cue_after: self.cue_after })
        } else {
            None
        }
    }

    /// Types a random text when the timer is due and the chance draw allows.
    pub fn maybe_emit(&self, elapsed_ticks: u64) -> (r: Option<Emission>)
        requires
            self.wf(),
        ensures
            r is Some ==> self.due_at(elapsed_ticks),
            self.due_at(elapsed_ticks) && self.one_in == 1 ==> r is Some,
            r matches Some(e) ==> text_ok(e.text@) && e.cue_before == self.cue_before
                && e.cue_after == self.cue_after,
    {
        if !self.fires(elapsed_ticks) {
            return None;
        }
        let draw = if self.one_in == 1 {
            0
        } else {
            random_in(0, self.one_in)
        };
        let text = keyboard_type().text;
        self.emit_with(elapsed_ticks, draw, text)
    }
}

} // verus!
