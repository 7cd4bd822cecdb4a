use vstd::prelude::*;

use crate::geometry::Position;
use crate::proximity::{edge_of, in_zone, is_triggered, tracked_edge};
use crate::random::random_in;
use crate::timer::{due, is_due, timer_ok};
use crate::tween::TweenState;

verus! {

/// The tick rate of the simulation, in ticks per second.
pub const TICK_RATE_HZ: u64 = 60;

/// The step budget of every tween.
pub const TOTAL_STEPS: u32 = 100;

/// How often, in seconds, the pet decides to wander.
pub const WANDER_PERIOD_SECS: u64 = 20;

/// The picture the pet shows.
#[derive(Clone, Copy, Debug, PartialEq, Eq)]
pub enum Sprite {
    Neutral,
    Angry,
    Walking,
}

/// What the controller is told at the start of a tick.
#[derive(Clone, Copy, Debug, PartialEq, Eq)]
pub struct TickInput {
    /// Ticks since the start of the simulation.
    pub elapsed_ticks: u64,
    /// Where the pointer is.
    pub pointer: Position,
    /// Where the tracked window is, or `None` where its placement is not
    /// absolute.
    pub tracked_window: Option<Position>,
    /// The tracked window's width.
    pub tracked_width: u32,
    /// Where the pet's own window is, or `None` where its placement is not
    /// absolute.
    pub pet_window: Option<Position>,
    /// The size of the monitor the pet is on.
    pub monitor_width: u32,
    pub monitor_height: u32,
    /// The size of the pet's own window.
    pub pet_width: u32,
    pub pet_height: u32,
}

/// What the controller asks of the outside world after a tick.
#[derive(Clone, Copy, Debug, PartialEq, Eq)]
pub struct Outcome {
    /// Where to put the pet's window.
    pub position: Option<Position>,
    /// The sprite to show.
    pub sprite: Option<Sprite>,
    /// Whether to play the meow that announces a wander.
    pub meow: bool,
    /// Whether the sprite should face left (`Some(true)`) or right.
    pub facing_left: Option<bool>,
}

/// The pet's behaviour state: one flag per behaviour and one tween per motion.
///
/// Fleeing from the pointer takes priority over wandering: a wander is only
/// requested or started while no flee is pending, and a flee that comes up
/// while a wander is in flight waits for it to end. So at most one tween is
/// ever in flight.
#[derive(Clone, Copy, Debug, PartialEq, Eq)]
pub struct PetController {
    pub should_flee: bool,
    pub should_wander: bool,
    /// The point next to the pointer where the last trigger was seen; a flee
    /// heads there.
    pub flee_target: Position,
    pub flee: TweenState,
    pub wander: TweenState,
    pub tick_rate_hz: u64,
    pub wander_period_secs: u64,
}

/// The range a wander destination is drawn from: `x` in
/// `0..monitor_width - pet_width / 2`, and likewise `y`; `None` where either
/// is empty or reaches past the coordinate range.
pub open spec fn wander_bounds(inp: TickInput) -> Option<(u32, u32)> {
    let bx = inp.monitor_width - inp.pet_width / 2;
    let by = inp.monitor_height - inp.pet_height / 2;
    if 0 < bx <= 0x8000_0000 && 0 < by <= 0x8000_0000 {
        Some((bx as u32, by as u32))
    } else {
        None
    }
}

/// The tracked window's top right corner, or `None` where the window's
/// placement is not absolute or the corner lies beyond the coordinate range.
pub open spec fn edge_in(inp: TickInput) -> Option<Position> {
    match inp.tracked_window {
        Some(w) => edge_of(w, inp.tracked_width),
        None => None,
    }
}

/// Whether `dest` is a destination that may be drawn for `inp`.
pub open spec fn destination_ok(inp: TickInput, dest: Option<Position>) -> bool {
    match wander_bounds(inp) {
        Some((bx, by)) => match dest {
            Some(p) => 0 <= p.x < bx && 0 <= p.y < by,
            None => false,
        },
        None => dest is None,
    }
}

impl PetController {
    pub open spec fn wf(self) -> bool {
        &&& self.flee.wf()
        &&& self.wander.wf()
        &&& !(self.flee.active && self.wander.active)
        &&& self.flee.active ==> self.should_flee
        &&& self.wander.active ==> self.should_wander
        &&& timer_ok(self.wander_period_secs, self.tick_rate_hz)
    }

    /// Proximity: a pointer in the trigger zone of the tracked window's edge
    /// requests a flee towards that edge.
    pub open spec fn sensed(self, inp: TickInput) -> (PetController, bool) {
        match edge_in(inp) {
            Some(e) => if in_zone(inp.pointer, e) {
                (PetController { should_flee: true, flee_target: e, ..self }, true)
            } else {
                (self, false)
            },
            None => (self, false),
        }
    }

    /// The wander timer: when due, and no flee is pending, a wander is
    /// requested.
    pub open spec fn timed(self, elapsed_ticks: u64) -> (PetController, bool) {
        if due(elapsed_ticks, self.wander_period_secs, self.tick_rate_hz) && !self.should_flee {
            (PetController { should_wander: true, ..self }, true)
        } else {
            (self, false)
        }
    }

    /// The flee. While the tracked window's edge is unresolved nothing moves
    /// and nothing changes: the tick is skipped and retried on the next.
    /// Otherwise a tween in flight takes its step, and clears the request
    /// when done; or a pending request is armed from the pet's window to the
    /// flee target, unless a wander is in flight.
    pub open spec fn fled(self, edge: Option<Position>, pet: Option<Position>) -> (
        PetController,
        Option<Position>,
    ) {
        if edge is None {
            (self, None)
        } else if self.flee.active {
            let (t, p, done) = self.flee.advanced();
            if done {
                (PetController { flee: t, should_flee: false, ..self }, None)
            } else {
                (PetController { flee: t, ..self }, Some(p))
            }
        } else if self.should_flee && !self.wander.active && pet is Some {
            (PetController { flee: self.flee.armed(pet->0, self.flee_target), ..self }, None)
        } else {
            (self, None)
        }
    }

    /// The wander: a tween in flight takes its step, and clears the request
    /// when done; otherwise a pending request is armed from the pet's window
    /// to `dest`, unless a flee is pending or in flight.
    pub open spec fn wandered(self, pet: Option<Position>, dest: Option<Position>) -> (
        PetController,
        Option<Position>,
        Option<Sprite>,
        Option<bool>,
    ) {
        if self.wander.active {
            let (t, p, done) = self.wander.advanced();
            if done {
                (
                    PetController { wander: t, should_wander: false, ..self },
                    None,
                    Some(Sprite::Neutral),
                    None,
                )
            } else {
                (PetController { wander: t, ..self }, Some(p), None, None)
            }
        } else if self.should_wander && !self.should_flee && !self.flee.active && pet is Some
            && dest is Some {
            (
                PetController { wander: self.wander.armed(pet->0, dest->0), ..self },
                None,
                Some(Sprite::Walking),
                Some(dest->0.x < pet->0.x),
            )
        } else {
            (self, None, None, None)
        }
    }

    /// One tick, in order: proximity, wander timer, flee, wander.
    pub open spec fn stepped(self, inp: TickInput, dest: Option<Position>) -> (
        PetController,
        Outcome,
    ) {
        let (s1, angry) = self.sensed(inp);
        let (s2, meow) = s1.timed(inp.elapsed_ticks);
        let (s3, fled_to) = s2.fled(edge_in(inp), inp.pet_window);
        let (s4, wandered_to, sprite, facing) = s3.wandered(inp.pet_window, dest);
        let position = if fled_to is Some {
            fled_to
        } else {
            wandered_to
        };
        let sprite = if sprite is Some {
            sprite
        } else if angry {
            Some(Sprite::Angry)
        } else {
            None
        };
        (s4, Outcome { position, sprite, meow, facing_left: facing })
    }

    /// A controller at rest, with nothing requested and nothing in flight.
    pub fn new(tick_rate_hz: u64, wander_period_secs: u64, total_steps: u32) -> (r: PetController)
        requires
            timer_ok(wander_period_secs, tick_rate_hz),
            total_steps > 0,
        ensures
            r.wf(),
            !r.should_flee,
            !r.should_wander,
            !r.flee.active,
            !r.wander.active,
            r.flee.total_steps == total_steps,
            r.wander.total_steps == total_steps,
            r.tick_rate_hz == tick_rate_hz,
            r.wander_period_secs == wander_period_secs,
    {
        let origin = Position { x: 0, y: 0 };
        PetController {
            should_flee: false,
            should_wander: false,
            flee_target: origin,
            flee: TweenState::new(total_steps, origin),
            wander: TweenState::new(total_steps, origin),
            tick_rate_hz,
            wander_period_secs,
        }
    }

    /// A controller at rest with the standard settings: 60 ticks a second,
    /// a wander every 20 seconds and tweens of 100 steps.
    pub fn standard() -> (r: PetController)
        ensures
            r.wf(),
            !r.should_flee,
            !r.should_wander,
            !r.flee.active,
            !r.wander.active,
            r.flee.total_steps == TOTAL_STEPS,
            r.wander.total_steps == TOTAL_STEPS,
            r.tick_rate_hz == TICK_RATE_HZ,
            r.wander_period_secs == WANDER_PERIOD_SECS,
    {
        PetController::new(TICK_RATE_HZ, WANDER_PERIOD_SECS, TOTAL_STEPS)
    }

    fn sense(&mut self, inp: &TickInput, edge: Option<Position>) -> (angry: bool)
        requires
            edge == edge_in(*inp),
        ensures
            (*final(self), angry) == old(self).sensed(*inp),
    {
        match edge {
            Some(e) => if is_triggered(inp.pointer, e) {
                self.should_flee = true;
                self.flee_target = e;
                true
            } else {
                false
            },
            None => false,
        }
    }

    fn time(&mut self, elapsed_ticks: u64) -> (meow: bool)
        requires
            old(self).wf(),
        ensures
            (*final(self), meow) == old(self).timed(elapsed_ticks),
    {
        if is_due(elapsed_ticks, self.wander_period_secs, self.tick_rate_hz) && !self.should_flee {
            self.should_wander = true;
            true
        } else {
            false
        }
    }

    fn flee_step(&mut self, edge: Option<Position>, pet: Option<Position>) -> (r: Option<Position>)
        requires
            old(self).wf(),
        ensures
            (*final(self), r) == old(self).fled(edge, pet),
            final(self).wf(),
    {
        if edge.is_none() {
            None
        } else if self.flee.active {
            let (p, done) = self.flee.advance();
            if done {
                self.should_flee = false;
                None
            } else {
                Some(p)
            }
        } else if self.should_flee && !self.wander.active {
            match pet {
                Some(at) => {
                    self.flee.arm(at, self.flee_target);
                    None
                },
                None => None,
            }
        } else {
            None
        }
    }

    fn wander_step(&mut self, pet: Option<Position>, dest: Option<Position>) -> (r: (
        Option<Position>,
        Option<Sprite>,
        Option<bool>,
    ))
        requires
            old(self).wf(),
        ensures
            (*final(self), r.0, r.1, r.2) == old(self).wandered(pet, dest),
            final(self).wf(),
    {
        if self.wander.active {
            let (p, done) = self.wander.advance();
            if done {
                self.should_wander = false;
                (None, Some(Sprite::Neutral), None)
            } else {
                (Some(p), None, None)
            }
        } else if self.should_wander && !self.should_flee && !self.flee.active {
            match (pet, dest) {
                (Some(at), Some(to)) => {
                    self.wander.arm(at, to);
                    (None, Some(Sprite::Walking), Some(to.x < at.x))
                },
                _ => (None, None, None),
            }
        } else {
            (None, None, None)
        }
    }

    /// One tick with a given wander destination (used only where a wander
    /// is armed on this tick).
    pub fn step(&mut self, inp: &TickInput, dest: Option<Position>) -> (r: Outcome)
        requires
            old(self).wf(),
        ensures
            (*final(self), r) == old(self).stepped(*inp, dest),
            final(self).wf(),
    {
        let edge = match inp.tracked_window {
            Some(w) => tracked_edge(w, inp.tracked_width),
            None => None,
        };
        let angry = self.sense(inp, edge);
        let meow = self.time(inp.elapsed_ticks);
        let fled_to = self.flee_step(edge, inp.pet_window);
        let (wandered_to, sprite, facing) = self.wander_step(inp.pet_window, dest);
        let position = if fled_to.is_some() {
            fled_to
        } else {
            wandered_to
        };
        let sprite = if sprite.is_some() {
            sprite
        } else if angry {
            Some(Sprite::Angry)
        } else {
            None
        };
        Outcome { position, sprite, meow, facing_left: facing }
    }

    /// One tick, with a wander destination drawn at random from the
    /// monitor's bounds.
    pub fn tick(&mut self, inp: &TickInput) -> (r: Outcome)
        requires
            old(self).wf(),
        ensures
            exists|dest: Option<Position>|
                destination_ok(*inp, dest) && (*final(self), r) == old(self).stepped(*inp, dest),
            final(self).wf(),
    {
        let dest = random_destination(inp);
        self.step(inp, dest)
    }
}

/// Whether a tween in flight ends on this tick: its budget is spent.
pub open spec fn ends_now(t: TweenState) -> bool {
    t.active && t.step >= t.total_steps
}

/// Flee takes priority over wander. On a tick where, once the pointer has
/// been looked at, a flee is pending: the wander timer requests no wander
/// and no meow is played; unless a flee ends on that tick, no wander tween
/// starts; and a pending flee with nothing in flight starts ahead of any
/// wander request, wherever both windows are resolved.
pub proof fn lemma_flee_preempts_wander(s: PetController, inp: TickInput, dest: Option<Position>)
    requires
        s.wf(),
    ensures
        ({
            let f = s.sensed(inp).0.should_flee;
            let (n, o) = s.stepped(inp, dest);
            &&& f ==> !o.meow
            &&& f && !s.should_wander ==> !n.should_wander
            &&& f && !s.flee.active && !s.wander.active ==> !n.wander.active
            &&& f && !s.flee.active && !s.wander.active && edge_in(inp) is Some
                && inp.pet_window is Some ==> n.flee.active
        }),
{
}

/// A flee in flight is not re-armed by a new trigger. While the tracked
/// window's edge is unresolved the tick leaves it, its request and the
/// pet's position alone; otherwise the tick keeps its start and end and
/// takes it one step further, or ends it and clears the request.
pub proof fn lemma_flee_in_flight(s: PetController, inp: TickInput, dest: Option<Position>)
    requires
        s.wf(),
        s.flee.active,
    ensures
        ({
            let (n, o) = s.stepped(inp, dest);
            &&& n.flee.start == s.flee.start
            &&& n.flee.end == s.flee.end
            &&& if edge_in(inp) is None {
                n.flee == s.flee && n.should_flee && o.position is None
            } else if s.flee.step < s.flee.total_steps {
                n.flee.step == s.flee.step + 1 && n.flee.active
                    && o.position == Some(s.flee.point_at(s.flee.step as int))
            } else {
                n.flee.step == s.flee.step && !n.flee.active && !n.should_flee
            }
        }),
{
}

/// A pointer in the trigger zone of the resolved tracked edge requests a
/// flee towards that edge, and a pointer outside leaves the request as it
/// was, on every tick where no flee ends.
pub proof fn lemma_trigger_sets_flee(
    s: PetController,
    inp: TickInput,
    dest: Option<Position>,
    e: Position,
)
    requires
        s.wf(),
        edge_in(inp) == Some(e),
        !ends_now(s.flee),
    ensures
        ({
            let (n, o) = s.stepped(inp, dest);
            &&& n.should_flee == (s.should_flee || in_zone(inp.pointer, e))
            &&& in_zone(inp.pointer, e) ==> n.flee_target == e
        }),
{
}

/// The tick on which a flee is triggered with nothing in flight arms it:
/// from the pet's window as it stands to the tracked edge, with no step
/// taken and no motion.
pub proof fn lemma_trigger_arms_flee(
    s: PetController,
    inp: TickInput,
    dest: Option<Position>,
    e: Position,
    at: Position,
)
    requires
        s.wf(),
        !s.flee.active,
        !s.wander.active,
        edge_in(inp) == Some(e),
        in_zone(inp.pointer, e),
        inp.pet_window == Some(at),
    ensures
        ({
            let (n, o) = s.stepped(inp, dest);
            &&& n.should_flee
            &&& n.flee.active
            &&& n.flee.step == 0
            &&& n.flee.start == at
            &&& n.flee.end == e
            &&& !n.wander.active
            &&& o.position is None
            &&& o.sprite == Some(Sprite::Angry)
        }),
{
}

/// When the wander timer is due and, once the pointer has been looked at,
/// no flee is pending, the tick requests a wander and plays the meow,
/// unless a wander ends on that very tick.
pub proof fn lemma_wander_requested_when_due(
    s: PetController,
    inp: TickInput,
    dest: Option<Position>,
)
    requires
        s.wf(),
        due(inp.elapsed_ticks, s.wander_period_secs, s.tick_rate_hz),
        !s.sensed(inp).0.should_flee,
        !ends_now(s.wander),
    ensures
        ({
            let (n, o) = s.stepped(inp, dest);
            &&& n.should_wander
            &&& o.meow
        }),
{
}

/// The range a wander destination is drawn from, as in `wander_bounds`.
pub fn destination_bounds(inp: &TickInput) -> (r: Option<(u32, u32)>)
    ensures
        r == wander_bounds(*inp),
{
    let bx = inp.monitor_width as i64 - (inp.pet_width / 2) as i64;
    let by = inp.monitor_height as i64 - (inp.pet_height / 2) as i64;
    if 0 < bx && bx <= 0x8000_0000 && 0 < by && by <= 0x8000_0000 {
        Some((bx as u32, by as u32))
    } else {
        None
    }
}

/// A wander destination drawn at random within the monitor's bounds, or
/// `None` where those bounds are empty.
pub fn random_destination(inp: &TickInput) -> (r: Option<Position>)
    ensures
        destination_ok(*inp, r),
{
    match destination_bounds(inp) {
        Some((bx, by)) => {
            let x = random_in(0, bx);
            let y = random_in(0, by);
            Some(Position { x: x as i32, y: y as i32 })
        },
        None => None,
    }
}

} // verus!
