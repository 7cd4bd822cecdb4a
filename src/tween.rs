use vstd::prelude::*;

use crate::geometry::Position;

verus! {

/// Integer division rounding toward zero, as `/` does on Rust's signed integers.
pub open spec fn trunc_div(a: int, b: int) -> int {
    if a >= 0 {
        a / b
    } else {
        -((-a) / b)
    }
}

/// For `0 <= k <= n`, `k` shares of `d` split `n` ways stay between 0 and `d`.
proof fn lemma_share_bounded(d: int, n: int, k: int)
    requires
        n > 0,
        0 <= k <= n,
    ensures
        d >= 0 ==> 0 <= k * trunc_div(d, n) <= d,
        d < 0 ==> d <= k * trunc_div(d, n) <= 0,
{
    if d >= 0 {
        let q = d / n;
        assert(0 <= q && q * n <= d) by (nonlinear_arith)
            requires
                d >= 0,
                n > 0,
                q == d / n,
        ;
        assert(0 <= k * q <= q * n) by (nonlinear_arith)
            requires
                0 <= q,
                0 <= k <= n,
        ;
    } else {
        let q = (-d) / n;
        assert(0 <= q && q * n <= -d) by (nonlinear_arith)
            requires
                -d > 0,
                n > 0,
                q == (-d) / n,
        ;
        assert(0 <= k * q <= q * n) by (nonlinear_arith)
            requires
                0 <= q,
                0 <= k <= n,
        ;
        assert(k * (-q) == -(k * q)) by (nonlinear_arith);
    }
}

/// One linear interpolation of a position from `start` to `end` over a fixed
/// number of steps.
///
/// Each step moves by the per-axis delta `(end - start) / total_steps`
/// (rounded toward zero), always measured from `start` itself, so the
/// rounding does not build up from step to step.
#[derive(Clone, Copy, Debug, PartialEq, Eq, Structural)]
pub struct TweenState {
    pub start: Position,
    pub end: Position,
    /// Steps taken so far.
    pub step: u32,
    /// The step budget of every tween.
    pub total_steps: u32,
    /// Whether a tween is in flight.
    pub active: bool,
    /// The position handed out last.
    pub last: Position,
}

impl TweenState {
    pub open spec fn wf(self) -> bool {
        &&& self.total_steps > 0
        &&& self.step <= self.total_steps
    }

    /// The per-axis delta of one step.
    pub open spec fn delta_x(self) -> int {
        trunc_div(self.end.x - self.start.x, self.total_steps as int)
    }

    pub open spec fn delta_y(self) -> int {
        trunc_div(self.end.y - self.start.y, self.total_steps as int)
    }

    /// Where the tween stands after `k` steps.
    pub open spec fn point_at(self, k: int) -> Position {
        Position {
            x: (self.start.x + k * self.delta_x()) as i32,
            y: (self.start.y + k * self.delta_y()) as i32,
        }
    }

    /// What arming does: a fresh tween from `start` to `end` when none is in
    /// flight, and nothing at all while one is.
    pub open spec fn armed(self, start: Position, end: Position) -> TweenState {
        if self.active {
            self
        } else {
            TweenState { start, end, step: 0, active: true, last: start, ..self }
        }
    }

    /// What one call of `advance` does: the next new state, the position it
    /// hands out and whether the tween is done.
    pub open spec fn advanced(self) -> (TweenState, Position, bool) {
        if self.active && self.step < self.total_steps {
            let p = self.point_at(self.step as int);
            (TweenState { step: (self.step + 1) as u32, last: p, ..self }, p, false)
        } else {
            (TweenState { active: false, ..self }, self.last, true)
        }
    }

    /// The state after `n` calls of `advance`.
    pub open spec fn advanced_times(self, n: nat) -> TweenState
        decreases n,
    {
        if n == 0 {
            self
        } else {
            self.advanced_times((n - 1) as nat).advanced().0
        }
    }

    /// An idle tween with the given step budget.
    pub fn new(total_steps: u32, at: Position) -> (r: TweenState)
        requires
            total_steps > 0,
        ensures
            r.wf(),
            !r.active,
            r.step == 0,
            r.total_steps == total_steps,
            r.start == at,
            r.end == at,
            r.last == at,
    {
        TweenState { start: at, end: at, step: 0, total_steps, active: false, last: at }
    }

    /// Starts a tween from `start` to `end` unless one is already in flight.
    ///
    /// Arming is the capture step: it moves nothing.
    pub fn arm(&mut self, start: Position, end: Position)
        requires
            old(self).wf(),
        ensures
            *final(self) == old(self).armed(start, end),
            final(self).wf(),
    {
        if !self.active {
            self.start = start;
            self.end = end;
            self.step = 0;
            self.active = true;
            self.last = start;
        }
    }

    /// Takes one step: hands out `start + step * delta` and counts the step,
    /// or, once the budget is spent, hands out the last position again,
    /// reports that the tween is done and goes idle.
    pub fn advance(&mut self) -> (r: (Position, bool))
        requires
            old(self).wf(),
        ensures
            (*final(self), r.0, r.1) == old(self).advanced(),
            final(self).wf(),
    {
        if self.active && self.step < self.total_steps {
            let n = self.total_steps as i64;
            let dx = trunc_div_exec(self.end.x as i64 - self.start.x as i64, n);
            let dy = trunc_div_exec(self.end.y as i64 - self.start.y as i64, n);
            proof {
                lemma_share_bounded(self.end.x - self.start.x, n as int, self.step as int);
                lemma_share_bounded(self.end.y - self.start.y, n as int, self.step as int);
            }
            let k = self.step as i64;
            let p = Position {
                x: (self.start.x as i64 + k * dx) as i32,
                y: (self.start.y as i64 + k * dy) as i32,
            };
            self.step = self.step + 1;
            self.last = p;
            (p, false)
        } else {
            self.active = false;
            (self.last, true)
        }
    }
}

/// After `k` calls of `advance` on a freshly armed tween, with `k` within the
/// budget, `k` steps are taken and the last one handed out `point_at(k - 1)`.
proof fn lemma_prefix(a: TweenState, k: nat)
    requires
        a.wf(),
        a.active,
        a.step == 0,
        a.last == a.start,
        k <= a.total_steps,
    ensures
        a.advanced_times(k) == (if k == 0 {
            a
        } else {
            TweenState { step: k as u32, last: a.point_at(k - 1), ..a }
        }),
    decreases k,
{
    if k > 0 {
        lemma_prefix(a, (k - 1) as nat);
    }
}

/// Arming is idempotent while a tween is in flight: a second trigger leaves
/// the step, the start and the end as they are.
pub proof fn lemma_arm_in_flight(t: TweenState, start: Position, end: Position)
    requires
        t.active,
    ensures
        t.armed(start, end) == t,
{
}

/// A freshly armed tween spends its budget in exactly `total_steps` calls
/// of `advance`: call `k` (counting from 1) hands out
/// `start + (k - 1) * delta` and is not done, after the last of them the
/// step count equals the budget, and the next call reports the tween done at
/// the position handed out last, `start + (total_steps - 1) * delta`, and
/// leaves it idle.
pub proof fn lemma_budget_spent(t: TweenState, start: Position, end: Position)
    requires
        t.wf(),
        !t.active,
    ensures
        ({
            let a = t.armed(start, end);
            let n = a.total_steps as nat;
            let b = a.advanced_times(n);
            &&& forall|k: nat|
                k < n ==> {
                    let r = (#[trigger] a.advanced_times(k)).advanced();
                    r.1 == a.point_at(k as int) && !r.2
                }
            &&& b.step == b.total_steps
            &&& b.active
            &&& b.start == start
            &&& b.end == end
            &&& b.last == a.point_at(n - 1)
            &&& b.advanced() == (TweenState { active: false, ..b }, a.point_at(n - 1), true)
        }),
{
    let a = t.armed(start, end);
    let n = a.total_steps as nat;
    assert forall|k: nat| k < n implies {
        let r = (#[trigger] a.advanced_times(k)).advanced();
        r.1 == a.point_at(k as int) && !r.2
    } by {
        lemma_prefix(a, k);
    }
    lemma_prefix(a, n);
}

fn trunc_div_exec(a: i64, b: i64) -> (r: i64)
    requires
        b > 0,
        a > i64::MIN,
    ensures
        r == trunc_div(a as int, b as int),
{
    if a >= 0 {
        a / b
    } else {
        -((-a) / b)
    }
}

} // verus!
