use vstd::prelude::*;

verus! {

/// Why a permission check refused an operation.
#[derive(Debug, Clone, PartialEq, Eq)]
pub struct PermissionDenied {
    pub api_name: String,
}

/// The permission set a worker runs with: every network and read access is
/// granted, high resolution timers are not.
#[derive(Debug, Clone, Copy, PartialEq, Eq)]
pub struct Permissions {}

impl Permissions {
    pub fn new() -> (p: Self)
        ensures
            p == (Permissions {}),
    {
        Permissions {}
    }

    /// Whether the script may read high resolution time: never.
    pub fn allow_hrtime(&mut self) -> (allowed: bool)
        ensures
            !allowed,
            *final(self) == *old(self),
    {
        false
    }

    /// Whether the script may reach `url` through `api_name`: always.
    pub fn check_net_url(&mut self, url: &str, api_name: &str) -> (r: Result<(), PermissionDenied>)
        ensures
            r is Ok,
            *final(self) == *old(self),
    {
        Ok(())
    }

    /// Whether the script may read the file at `path` through `api_name`: always.
    pub fn check_read(&mut self, path: &str, api_name: &str) -> (r: Result<(), PermissionDenied>)
        ensures
            r is Ok,
            *final(self) == *old(self),
    {
        Ok(())
    }
}

} // verus!
