//! Naming the agents, for whoever reports what they say.
use vstd::prelude::*;
use crate::partner::agent::Partner;

verus! {

/// Something that goes by a name.
pub trait Named<'a> {
    /// The name to report under.
    fn name(&'a self) -> &'a str;
}

impl<'a> Named<'a> for Partner {
    fn name(&'a self) -> (name: &'a str)
        ensures
            name@ == self.name@,
    {
        self.name.as_str()
    }
}

} // verus!
