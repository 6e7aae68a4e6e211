use vstd::prelude::*;

verus! {

/// The timer permissions that the permissions extension puts into the
/// engine's state: high resolution time is never granted.
#[derive(Debug, Clone, Copy, PartialEq, Eq)]
pub struct Permissions {}

impl Permissions {
    pub fn allow_hrtime(&mut self) -> (allowed: bool)
        ensures
            !allowed,
            *final(self) == *old(self),
    {
        false
    }
}

} // verus!
