//! Start and stop, as transitions of the registry.
//!
//! Each operation has two halves. The first looks at the registry and says
//! what the operating system has to be asked for, or why nothing is asked.
//! The second takes the answer and changes the registry. Between the two the
//! caller spawns or kills; after the second it writes the registry back.

use crate::registry::{first_index, has_path, unique_paths, Registry};
use crate::service::{Service, ServiceView};
use vstd::prelude::*;

verus! {

/// Why an operation ended without changing the registry.
#[derive(Debug, Clone, Copy, PartialEq, Eq, Structural)]
pub enum ServiceError {
    /// Start of a path that the registry already holds. Not fatal.
    AlreadyExists,
    /// Stop of a path that the registry does not hold.
    NotFound,
    /// The record to stop has no process id.
    MissingPid,
    /// The executable could not be started.
    SpawnFailure,
    /// The process could not be killed.
    KillFailure,
    /// The registry could not be read or written.
    StorageFailure,
}

impl ServiceError {
    /// Every error is fatal but the start of a service that is already
    /// there.
    pub open spec fn fatal(self) -> bool {
        !(self is AlreadyExists)
    }

    /// Whether the error ends the invocation abnormally.
    pub fn is_fatal(&self) -> (r: bool)
        ensures
            r == self.fatal(),
    {
        match self {
            ServiceError::AlreadyExists => false,
            _ => true,
        }
    }
}

/// A command of the user.
#[derive(Debug, Clone, PartialEq, Eq)]
pub enum Action {
    /// Run the binary at this path as a service.
    Start { binary_path: Service },
    /// Stop the service that was started from this path.
    Stop { service_name: Service },
}

/// What the caller has to ask of the operating system.
#[derive(Debug, Clone, PartialEq, Eq)]
pub enum Request {
    /// Spawn the service's binary as a detached process, its output
    /// discarded, and hand the outcome to [`finish_start`].
    Spawn { service: Service },
    /// Kill the process `pid` at once, and hand the outcome to
    /// [`finish_stop`].
    Kill { service_name: Service, pid: u32 },
}

/// What a whole start makes of the registry `reg`: the registry with the
/// new record at its end, where the path is new and the spawn gave a process
/// id; else the reason why the registry stays as it is.
pub open spec fn start_result(reg: Seq<ServiceView>, path: Seq<char>, spawned: Option<u32>) -> Result<
    Seq<ServiceView>,
    ServiceError,
> {
    if has_path(reg, path) {
        Err(ServiceError::AlreadyExists)
    } else {
        match spawned {
            None => Err(ServiceError::SpawnFailure),
            Some(pid) => Ok(reg.push(ServiceView { binary_path: path, pid: Some(pid) })),
        }
    }
}

/// What a whole stop makes of the registry `reg`: the registry without the
/// first record of that path, where there is one, it has a process id and
/// the kill succeeded; else the reason why the registry stays as it is.
pub open spec fn stop_result(reg: Seq<ServiceView>, path: Seq<char>, killed: bool) -> Result<
    Seq<ServiceView>,
    ServiceError,
> {
    if !has_path(reg, path) {
        Err(ServiceError::NotFound)
    } else if reg[first_index(reg, path)].pid is None {
        Err(ServiceError::MissingPid)
    } else if !killed {
        Err(ServiceError::KillFailure)
    } else {
        Ok(reg.remove(first_index(reg, path)))
    }
}

/// The registry after an operation with the result `result` on `reg`.
pub open spec fn registry_after(
    reg: Seq<ServiceView>,
    result: Result<Seq<ServiceView>, ServiceError>,
) -> Seq<ServiceView> {
    match result {
        Ok(next) => next,
        Err(_) => reg,
    }
}

/// The first half of a start: a spawn is asked for exactly where no record
/// has the path yet. The registry is not touched.
pub fn start_service(registry: &Registry, binary_path: Service) -> (r: Result<Request, ServiceError>)
    ensures
        has_path(registry@, binary_path@.binary_path) ==> r == Err::<Request, ServiceError>(
            ServiceError::AlreadyExists,
        ),
        !has_path(registry@, binary_path@.binary_path) ==> r == Ok::<Request, ServiceError>(
            (Request::Spawn { service: binary_path }),
        ),
{
    if registry.contains(&binary_path.binary_path) {
        Err(ServiceError::AlreadyExists)
    } else {
        Ok(Request::Spawn { service: binary_path })
    }
}

/// The second half of a start. `spawned` is the process id that the spawn
/// gave, or `None` where it failed.
///
/// On success the registry has one record more, at its end, with the path
/// and the process id, and the path is returned. Else the registry is
/// unchanged.
pub fn finish_start(registry: &mut Registry, binary_path: Service, spawned: Option<u32>) -> (r:
    Result<String, ServiceError>)
    ensures
        match start_result(old(registry)@, binary_path@.binary_path, spawned) {
            Ok(next) => r is Ok && r->Ok_0@ == binary_path@.binary_path && final(registry)@ == next,
            Err(e) => r == Err::<String, ServiceError>(e) && *final(registry) == *old(registry),
        },
        unique_paths(old(registry)@) ==> unique_paths(final(registry)@),
{
    if registry.contains(&binary_path.binary_path) {
        return Err(ServiceError::AlreadyExists);
    }
    match spawned {
        None => Err(ServiceError::SpawnFailure),
        Some(pid) => {
            let service_name = binary_path.binary_path.clone();
            let mut service = binary_path;
            service.pid = Some(pid);
            registry.records.push(service);
            proof {
                let before = old(registry)@;
                let record = ServiceView { binary_path: binary_path@.binary_path, pid: Some(pid) };
                assert(registry@ =~= before.push(record));
                lemma_push_keeps_unique(before, record);
            }
            Ok(service_name)
        },
    }
}

/// The first half of a stop: a kill of the recorded process is asked for
/// where the first record of the path has a process id. The registry is not
/// touched.
pub fn stop_service(registry: &Registry, service_name: Service) -> (r: Result<Request, ServiceError>)
    ensures
        !has_path(registry@, service_name@.binary_path) ==> r == Err::<Request, ServiceError>(
            ServiceError::NotFound,
        ),
        has_path(registry@, service_name@.binary_path) ==> r == (match registry@[first_index(
            registry@,
            service_name@.binary_path,
        )].pid {
            None => Err::<Request, ServiceError>(ServiceError::MissingPid),
            Some(pid) => Ok::<Request, ServiceError>((Request::Kill { service_name, pid })),
        }),
{
    match registry.position(&service_name.binary_path) {
        None => Err(ServiceError::NotFound),
        Some(index) => {
            assert(registry@[index as int] == registry.records@[index as int]@);
            match registry.records[index].pid {
                None => Err(ServiceError::MissingPid),
                Some(pid) => Ok(Request::Kill { service_name, pid }),
            }
        },
    }
}

/// The second half of a stop. `killed` says whether the kill succeeded.
///
/// On success the first record of the path has left the registry, the
/// others are as they were and in their order, and the path is returned.
/// Else the registry is unchanged.
pub fn finish_stop(registry: &mut Registry, service_name: &Service, killed: bool) -> (r: Result<
    String,
    ServiceError,
>)
    ensures
        match stop_result(old(registry)@, service_name@.binary_path, killed) {
            Ok(next) => r is Ok && r->Ok_0@ == service_name@.binary_path && final(registry)@ == next,
            Err(e) => r == Err::<String, ServiceError>(e) && *final(registry) == *old(registry),
        },
        unique_paths(old(registry)@) ==> unique_paths(final(registry)@),
{
    match registry.position(&service_name.binary_path) {
        None => Err(ServiceError::NotFound),
        Some(index) => {
            assert(registry@[index as int] == registry.records@[index as int]@);
            if registry.records[index].pid.is_none() {
                return Err(ServiceError::MissingPid);
            }
            if !killed {
                return Err(ServiceError::KillFailure);
            }
            let removed = registry.records.remove(index);
            proof {
                let before = old(registry)@;
                assert(registry@ =~= before.remove(index as int));
                lemma_remove_keeps_unique(before, index as int);
            }
            Ok(removed.binary_path)
        },
    }
}

impl Action {
    /// The first half of the command: that of a start or of a stop.
    pub fn run(self, registry: &Registry) -> (r: Result<Request, ServiceError>)
        ensures
            r == request_of(self, registry@),
    {
        match self {
            Action::Start { binary_path } => start_service(registry, binary_path),
            Action::Stop { service_name } => stop_service(registry, service_name),
        }
    }
}

/// What the command `action` asks of the operating system on the registry
/// `reg`, or why it asks nothing.
pub open spec fn request_of(action: Action, reg: Seq<ServiceView>) -> Result<Request, ServiceError> {
    match action {
        Action::Start { binary_path } => if has_path(reg, binary_path@.binary_path) {
            Err(ServiceError::AlreadyExists)
        } else {
            Ok(Request::Spawn { service: binary_path })
        },
        Action::Stop { service_name } => if !has_path(reg, service_name@.binary_path) {
            Err(ServiceError::NotFound)
        } else {
            match reg[first_index(reg, service_name@.binary_path)].pid {
                None => Err(ServiceError::MissingPid),
                Some(pid) => Ok(Request::Kill { service_name, pid }),
            }
        },
    }
}

/// A record with a new path at the end keeps the paths unique.
pub proof fn lemma_push_keeps_unique(reg: Seq<ServiceView>, record: ServiceView)
    requires
        !has_path(reg, record.binary_path),
    ensures
        unique_paths(reg) ==> unique_paths(reg.push(record)),
{
    let next = reg.push(record);
    if unique_paths(reg) {
        assert forall|i: int, j: int| 0 <= i < j < next.len() implies (#[trigger] next[i]).binary_path
            != (#[trigger] next[j]).binary_path by {
            if j < reg.len() {
                assert(next[i] == reg[i] && next[j] == reg[j]);
            } else {
                assert(next[i] == reg[i]);
                assert(reg[i].binary_path != record.binary_path);
            }
        }
    }
}

/// Taking a record out keeps the paths unique.
pub proof fn lemma_remove_keeps_unique(reg: Seq<ServiceView>, index: int)
    requires
        0 <= index < reg.len(),
    ensures
        unique_paths(reg) ==> unique_paths(reg.remove(index)),
{
    let next = reg.remove(index);
    if unique_paths(reg) {
        assert forall|i: int, j: int| 0 <= i < j < next.len() implies (#[trigger] next[i]).binary_path
            != (#[trigger] next[j]).binary_path by {
            let a = if i < index { i } else { i + 1 };
            let b = if j < index { j } else { j + 1 };
            assert(next[i] == reg[a] && next[j] == reg[b]);
        }
    }
}

} // verus!
