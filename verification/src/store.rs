//! What the registry file may hold, and the registry that is read from it.

use crate::controller::ServiceError;
use crate::registry::{unique_paths, Registry};
use crate::service::{Service, ServiceView};
use vstd::prelude::*;

verus! {

/// The state in which the registry file was found.
#[derive(Debug, Clone, PartialEq, Eq)]
pub enum Stored {
    /// There is no file.
    Missing,
    /// There is a file, and it does not hold a list of records.
    Unreadable,
    /// The records of the file, in the file's order.
    Records(Vec<Service>),
}

/// The registry that a file in the state `stored` stands for.
///
/// A missing file is the empty registry. The records of a readable file are
/// the registry, in their order, whatever they are. An unreadable file is a
/// storage failure.
pub fn load_services(stored: Stored) -> (r: Result<Registry, ServiceError>)
    ensures
        stored is Missing ==> r is Ok && r->Ok_0@ == Seq::<ServiceView>::empty() && unique_paths(
            r->Ok_0@,
        ),
        stored is Unreadable ==> r == Err::<Registry, ServiceError>(ServiceError::StorageFailure),
        stored is Records ==> r == Ok::<Registry, ServiceError>(
            (Registry { records: stored->Records_0 }),
        ),
{
    match stored {
        Stored::Missing => Ok(Registry::new()),
        Stored::Unreadable => Err(ServiceError::StorageFailure),
        Stored::Records(records) => Ok(Registry { records }),
    }
}

} // verus!
