use vstd::prelude::*;

verus! {

/// What the pacing loop does next, in nanoseconds: sleep this long, or carry this much
/// lateness forward.
#[derive(Debug, Clone, Copy, PartialEq, Eq, Structural)]
pub struct Pause {
    pub sleep: u64,
    pub runover: u64,
}

/// The lateness after `elapsed` of wall time was spent on emulated time `due`: what was
/// carried plus any overshoot, saturating.
pub open spec fn carried(due: u64, elapsed: u64, runover: u64) -> int {
    let over = if elapsed > due {
        elapsed - due
    } else {
        0
    };
    if runover + over > u64::MAX {
        u64::MAX as int
    } else {
        runover + over
    }
}

/// Decides a pause: the time still owed (`due` less `elapsed`, at least zero) is first paid
/// from the carried lateness; only what remains is slept.
pub fn plan_pause(due: u64, elapsed: u64, runover: u64) -> (r: Pause)
    ensures
        ({
            let late = carried(due, elapsed, runover);
            let owed = if due > elapsed {
                due - elapsed
            } else {
                0
            };
            if late < owed {
                r.sleep == owed - late && r.runover == 0
            } else {
                r.sleep == 0 && r.runover == late - owed
            }
        }),
{
    let late = if elapsed > due {
        runover.saturating_add(elapsed - due)
    } else {
        runover
    };
    let owed = due.saturating_sub(elapsed);
    if late < owed {
        Pause { sleep: owed - late, runover: 0 }
    } else {
        Pause { sleep: 0, runover: late - owed }
    }
}

} // verus!
