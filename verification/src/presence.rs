//! The bot's rotating status text.

use vstd::prelude::*;

verus! {

/// Seconds each status is shown.
pub const CYCLE_TIME_SECONDS: u64 = 30;

/// How many statuses there are.
pub const ACTIVITY_COUNT: usize = 7;

/// The statuses, in the order they are shown.
pub open spec fn activities() -> Seq<Seq<char>> {
    seq![
        "observing... | /help"@,
        "managing... | /help"@,
        "finding... | /help"@,
        "organising... | /help"@,
        "assembling... | /help"@,
        "searching... | /help"@,
        "assisting... | /help"@,
    ]
}

/// The status at position `index`.
pub fn activity(index: usize) -> (s: &'static str)
    requires
        index < ACTIVITY_COUNT,
    ensures
        s@ == activities()[index as int],
{
    if index == 0 {
        "observing... | /help"
    } else if index == 1 {
        "managing... | /help"
    } else if index == 2 {
        "finding... | /help"
    } else if index == 3 {
        "organising... | /help"
    } else if index == 4 {
        "assembling... | /help"
    } else if index == 5 {
        "searching... | /help"
    } else {
        "assisting... | /help"
    }
}

/// The position of the status shown after the one at `index`.
pub fn next_activity(index: usize) -> (next: usize)
    requires
        index < ACTIVITY_COUNT,
    ensures
        next == (index + 1) % (ACTIVITY_COUNT as int),
        next < ACTIVITY_COUNT,
{
    (index + 1) % ACTIVITY_COUNT
}

/// The position after `steps` steps from `start`.
pub open spec fn position_after(start: int, steps: nat) -> int
    decreases steps,
{
    if steps == 0 {
        start
    } else {
        (position_after(start, (steps - 1) as nat) + 1) % (ACTIVITY_COUNT as int)
    }
}

/// The rotation shows every status, one after the other, and comes back to
/// the first after showing all of them.
pub proof fn law_rotation_cycles(start: int, steps: nat)
    requires
        0 <= start < ACTIVITY_COUNT,
    ensures
        position_after(start, steps) == (start + steps) % (ACTIVITY_COUNT as int),
        position_after(start, ACTIVITY_COUNT as nat) == start,
    decreases steps,
{
    if steps > 0 {
        law_rotation_cycles(start, (steps - 1) as nat);
        let p = position_after(start, (steps - 1) as nat);
        assert((((start + steps - 1) % 7) + 1) % 7 == (start + steps) % 7) by (nonlinear_arith)
            requires
                start >= 0,
                steps >= 1,
        ;
    }
    reveal_with_fuel(position_after, 8);
}

} // verus!
