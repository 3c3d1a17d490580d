use vstd::prelude::*;

use crate::identification::first_order::sundaresan::Sundaresan;

verus! {

/// The method of Sundaresan and Krishnaswamy under the second author's name.
pub struct Krishnaswamy(pub Sundaresan);

impl AsRef<Sundaresan> for Krishnaswamy {
    fn as_ref(&self) -> (r: &Sundaresan)
        ensures
            *r == self.0,
    {
        &self.0
    }
}

impl AsMut<Sundaresan> for Krishnaswamy {
    fn as_mut(&mut self) -> (r: &mut Sundaresan)
        ensures
            *r == old(self).0,
            *final(self) == Krishnaswamy(*final(r)),
    {
        &mut self.0
    }
}

} // verus!
