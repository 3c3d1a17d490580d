use vstd::prelude::*;

verus! {

/// Smith's first-order method: the times at 28.3 % and 63.2 % of the final
/// value give the time constant and the dead time.
pub struct Smith;

} // verus!
