use vstd::prelude::*;

verus! {

/// The method of Sundaresan and Krishnaswamy: the times at 35.3 % and 85.3 %
/// of the final value give the time constant and the dead time.
pub struct Sundaresan;

} // verus!
