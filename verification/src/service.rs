//! The record that the registry keeps of one service.

use vstd::prelude::*;

verus! {

/// One tracked service.
///
/// The path is both the executable to launch and the key by which the
/// service is found again. The process id is known once the service has
/// been spawned.
#[derive(Debug, Clone, PartialEq, Eq)]
pub struct Service {
    pub binary_path: String,
    pub pid: Option<u32>,
}

/// The mathematical value of a [`Service`].
pub struct ServiceView {
    pub binary_path: Seq<char>,
    pub pid: Option<u32>,
}

impl View for Service {
    type V = ServiceView;

    open spec fn view(&self) -> ServiceView {
        ServiceView { binary_path: self.binary_path@, pid: self.pid }
    }
}

impl Service {
    /// Reads a service from a command-line argument: the argument is the
    /// path, and no process id is known yet. Never fails.
    pub fn from_str(s: &str) -> (r: Result<Service, String>)
        ensures
            r is Ok,
            r->Ok_0@ == (ServiceView { binary_path: s@, pid: None }),
    {
        Ok(Service { binary_path: s.to_owned(), pid: None })
    }
}

} // verus!
