pub mod args;
pub mod driver;
pub mod monitor;
pub mod text;

use vstd::prelude::*;

verus! {

use crate::driver::{DriverState, Event, spec_run, next};

/// Replays a whole sequence of control events from the initial state and
/// returns where the run ends: `Done` for overall success, `Failed` with
/// its reason otherwise, or an intermediate state for a truncated sequence.
pub fn run(events: &Vec<Event>) -> (r: DriverState)
    ensures
        r == spec_run(DriverState::Init, events@),
{
    let mut s = DriverState::Init;
    let mut k: usize = 0;
    proof {
        assert(events@.subrange(0, events@.len() as int) =~= events@);
    }
    while k < events.len()
        invariant
            k <= events@.len(),
            spec_run(s, events@.subrange(k as int, events@.len() as int)) == spec_run(
                DriverState::Init,
                events@,
            ),
        decreases events@.len() - k,
    {
        proof {
            let tail = events@.subrange(k as int, events@.len() as int);
            assert(tail[0] == events@[k as int]);
            assert(tail.subrange(1, tail.len() as int) =~= events@.subrange(
                k + 1 as int,
                events@.len() as int,
            ));
        }
        s = next(s, events[k]);
        k += 1;
    }
    s
}

} // verus!
