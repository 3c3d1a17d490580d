use vstd::prelude::*;

verus! {

/// The method of Ziegler and Nichols: the tangent at the point of steepest
/// slope meets the initial value at the dead time and the final value one
/// time constant later.
pub struct ZieglerNichols;

} // verus!
