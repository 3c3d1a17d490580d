use vstd::prelude::*;

verus! {

/// Hägglund's method: the tangent at the point of steepest slope gives the
/// dead time, and the time the tangent reaches 63.2 % of the final value
/// gives the time constant.
pub struct Hagglund;

} // verus!
