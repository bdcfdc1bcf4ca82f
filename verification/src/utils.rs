//! Small helpers, and the scoreboard's sums.

use vstd::prelude::*;

pub mod numbers;
pub mod scoreboard;

verus! {

/// The first value where `condition` holds, else the second.
pub fn ternary<T>(condition: bool, when_true: T, when_false: T) -> (chosen: T)
    ensures
        chosen == if condition {
            when_true
        } else {
            when_false
        },
{
    if condition {
        when_true
    } else {
        when_false
    }
}

} // verus!
