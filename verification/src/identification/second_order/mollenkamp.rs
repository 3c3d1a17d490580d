use vstd::prelude::*;

verus! {

/// Mollenkamp's method: the times at 15 %, 45 % and 75 % of the final value
/// give the damping ratio, the natural frequency and the dead time.
pub struct Mollenkamp;

} // verus!
