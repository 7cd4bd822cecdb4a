use vstd::prelude::*;

verus! {

/// Whether the quit chord, Q with left Control and left Shift, is held.
pub fn quit_program(q: bool, control_left: bool, shift_left: bool) -> (r: bool)
    ensures
        r == (q && control_left && shift_left),
{
    q && control_left && shift_left
}

} // verus!
