//! Wall-clock alignment for the recurring status timer.
//!
//! The first firing of the timer is aligned to the next instant whose
//! wall-clock reading is an exact multiple of the period, so that
//! independently started instances tick on the same boundaries.

use vstd::prelude::*;

verus! {

use vstd::arithmetic::div_mod::{lemma_fundamental_div_mod, lemma_mod_multiples_basic};

/// Time remaining until the wall clock is a multiple of `period`.
///
/// `now` and `period` are in the same unit (the caller picks seconds or
/// nanoseconds). A reading that already sits on a boundary waits zero.
pub fn align_delay(now: u64, period: u64) -> (r: u64)
    requires
        period > 0,
    ensures
        r == if now % period == 0 { 0int } else { period - now % period },
        r < period,
        (now + r) % (period as int) == 0,
{
    let m = now % period;
    if m == 0 {
        0
    } else {
        proof {
            lemma_fundamental_div_mod(now as int, period as int);
            assert(now + (period - m) == period * ((now as int) / (period as int) + 1))
                by (nonlinear_arith)
                requires
                    now == (period as int) * ((now as int) / (period as int)) + m,
            ;
            lemma_mod_multiples_basic((now as int) / (period as int) + 1, period as int);
        }
        period - m
    }
}

} // verus!
