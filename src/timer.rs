use vstd::prelude::*;

verus! {

/// Whether a timer of `period_secs` seconds, on a clock that ticks
/// `tick_rate_hz` times a second, is due at tick `elapsed_ticks`: elapsed time
/// is a whole multiple of the period (tick 0 included).
pub open spec fn due(elapsed_ticks: u64, period_secs: u64, tick_rate_hz: u64) -> bool {
    elapsed_ticks as int % (period_secs as int * tick_rate_hz as int) == 0
}

/// What a timer needs: a period and a tick rate, both positive, whose product
/// (the period in ticks) fits in a `u64`.
pub open spec fn timer_ok(period_secs: u64, tick_rate_hz: u64) -> bool {
    &&& period_secs > 0
    &&& tick_rate_hz > 0
    &&& period_secs as int * tick_rate_hz as int <= u64::MAX
}

/// Whether the timer is due at tick `elapsed_ticks`.
pub fn is_due(elapsed_ticks: u64, period_secs: u64, tick_rate_hz: u64) -> (r: bool)
    requires
        timer_ok(period_secs, tick_rate_hz),
    ensures
        r == due(elapsed_ticks, period_secs, tick_rate_hz),
{
    proof {
        assert(period_secs as int * tick_rate_hz as int > 0) by (nonlinear_arith)
            requires
                period_secs > 0,
                tick_rate_hz > 0,
        ;
    }
    let period_ticks = period_secs * tick_rate_hz;
    elapsed_ticks % period_ticks == 0
}

} // verus!
