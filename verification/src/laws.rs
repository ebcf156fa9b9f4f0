//! What holds of start and stop on every registry.

use crate::controller::{
    lemma_push_keeps_unique, lemma_remove_keeps_unique, registry_after, request_of, start_result,
    stop_result, Action, ServiceError,
};
use crate::registry::{
    exactly_one, first_index, has_path, is_first_match, lemma_first_index, unique_paths,
};
use crate::service::ServiceView;
use vstd::prelude::*;

verus! {

/// One whole operation, with the answer that the operating system gave.
pub enum Operation {
    /// A start of `path`; `spawned` is the new process id, if the spawn
    /// succeeded.
    Start { path: Seq<char>, spawned: Option<u32> },
    /// A stop of `path`; `killed` says whether the kill succeeded.
    Stop { path: Seq<char>, killed: bool },
}

/// The registry after the operation `op` on `reg`.
pub open spec fn apply(reg: Seq<ServiceView>, op: Operation) -> Seq<ServiceView> {
    match op {
        Operation::Start { path, spawned } => registry_after(reg, start_result(reg, path, spawned)),
        Operation::Stop { path, killed } => registry_after(reg, stop_result(reg, path, killed)),
    }
}

/// The registry after the operations `ops` on `reg`, one after the other.
pub open spec fn apply_all(reg: Seq<ServiceView>, ops: Seq<Operation>) -> Seq<ServiceView>
    decreases ops.len(),
{
    if ops.len() == 0 {
        reg
    } else {
        apply(apply_all(reg, ops.drop_last()), ops.last())
    }
}

/// A start or a stop keeps the paths of the registry unique.
pub proof fn law_operation_keeps_unique(reg: Seq<ServiceView>, op: Operation)
    requires
        unique_paths(reg),
    ensures
        unique_paths(apply(reg, op)),
{
    match op {
        Operation::Start { path, spawned } => {
            if !has_path(reg, path) && spawned is Some {
                lemma_push_keeps_unique(
                    reg,
                    ServiceView { binary_path: path, pid: Some(spawned->Some_0) },
                );
            }
        },
        Operation::Stop { path, killed } => {
            if has_path(reg, path) {
                lemma_first_index(reg, path);
                lemma_remove_keeps_unique(reg, first_index(reg, path));
            }
        },
    }
}

/// After any sequence of starts and stops, whatever the operating system
/// answered to each, no two records share a path: from the empty registry,
/// and from any registry of which that held.
pub proof fn law_paths_stay_unique(reg: Seq<ServiceView>, ops: Seq<Operation>)
    requires
        unique_paths(reg),
    ensures
        unique_paths(apply_all(reg, ops)),
        unique_paths(apply_all(Seq::empty(), ops)),
    decreases ops.len(),
{
    if ops.len() > 0 {
        law_paths_stay_unique(reg, ops.drop_last());
        law_operation_keeps_unique(apply_all(reg, ops.drop_last()), ops.last());
        law_operation_keeps_unique(apply_all(Seq::empty(), ops.drop_last()), ops.last());
    }
}

/// A start that did not fail at the spawn leaves exactly one record of its
/// path, and a second start of the same path is then reported as already
/// existing and changes nothing, whatever its spawn would have given.
pub proof fn law_second_start_already_exists(
    reg: Seq<ServiceView>,
    path: Seq<char>,
    first_spawn: Option<u32>,
    second_spawn: Option<u32>,
)
    requires
        unique_paths(reg),
        start_result(reg, path, first_spawn) != Err::<Seq<ServiceView>, ServiceError>(
            ServiceError::SpawnFailure,
        ),
    ensures
        ({
            let once = apply(reg, (Operation::Start { path, spawned: first_spawn }));
            &&& exactly_one(once, path)
            &&& start_result(once, path, second_spawn) == Err::<Seq<ServiceView>, ServiceError>(
                ServiceError::AlreadyExists,
            )
            &&& !ServiceError::AlreadyExists.fatal()
            &&& apply(once, (Operation::Start { path, spawned: second_spawn })) == once
        }),
{
    let once = apply(reg, (Operation::Start { path, spawned: first_spawn }));
    law_operation_keeps_unique(reg, (Operation::Start { path, spawned: first_spawn }));
    if has_path(reg, path) {
        assert(once == reg);
    } else {
        let last = reg.len() as int;
        assert(once[last].binary_path == path);
    }
    assert(has_path(once, path));
    lemma_first_index(once, path);
    let i = first_index(once, path);
    assert forall|j: int| 0 <= j < once.len() && (#[trigger] once[j]).binary_path == path implies j
        == i by {
        if i < j {
            assert(once[i].binary_path != once[j].binary_path);
        }
    }
    assert(once[i].binary_path == path);
}

/// A stop that succeeds takes out exactly one record, which has the path
/// asked for: the registry is one shorter, the records before the removed
/// one are where they were, and those behind it have moved up by one, in
/// their order. Where the paths were unique, none with that path is left.
pub proof fn law_stop_removes_one(reg: Seq<ServiceView>, path: Seq<char>)
    requires
        stop_result(reg, path, true) is Ok,
    ensures
        ({
            let next = apply(reg, (Operation::Stop { path, killed: true }));
            let i = first_index(reg, path);
            &&& is_first_match(reg, path, i)
            &&& reg[i].binary_path == path
            &&& next.len() == reg.len() - 1
            &&& forall|j: int| 0 <= j < i ==> #[trigger] next[j] == reg[j]
            &&& forall|j: int| i <= j < next.len() ==> #[trigger] next[j] == reg[j + 1]
            &&& unique_paths(reg) ==> !has_path(next, path)
        }),
{
    lemma_first_index(reg, path);
    let next = apply(reg, (Operation::Stop { path, killed: true }));
    let i = first_index(reg, path);
    assert(next == reg.remove(i));
    if unique_paths(reg) && has_path(next, path) {
        let k = choose|k: int| 0 <= k < next.len() && (#[trigger] next[k]).binary_path == path;
        let back = if k < i { k } else { k + 1 };
        assert(next[k] == reg[back]);
        if back < i {
            assert(reg[back].binary_path != reg[i].binary_path);
        } else {
            assert(reg[i].binary_path != reg[back].binary_path);
        }
    }
}

/// A stop of a path that the registry does not hold is a fatal error and
/// leaves the registry as it was, whether or not a kill would succeed.
pub proof fn law_stop_unknown_changes_nothing(reg: Seq<ServiceView>, path: Seq<char>, killed: bool)
    requires
        !has_path(reg, path),
    ensures
        stop_result(reg, path, killed) == Err::<Seq<ServiceView>, ServiceError>(
            ServiceError::NotFound,
        ),
        ServiceError::NotFound.fatal(),
        apply(reg, (Operation::Stop { path, killed })) == reg,
{
}

/// An operation that ends in an error leaves the registry as it was.
pub proof fn law_error_changes_nothing(reg: Seq<ServiceView>, op: Operation)
    ensures
        match op {
            Operation::Start { path, spawned } => start_result(reg, path, spawned) is Err ==> apply(
                reg,
                op,
            ) == reg,
            Operation::Stop { path, killed } => stop_result(reg, path, killed) is Err ==> apply(
                reg,
                op,
            ) == reg,
        },
{
}

/// The two halves of an operation agree: where the first half asks for a
/// spawn or a kill and the operating system does it, the second half
/// succeeds on the same registry; where the first half gives an error, the
/// second half gives the same one, whatever it is told.
pub proof fn law_halves_agree(reg: Seq<ServiceView>, action: Action, pid: u32, done: bool)
    ensures
        match action {
            Action::Start { binary_path } => match request_of(action, reg) {
                Ok(_) => start_result(reg, binary_path@.binary_path, Some(pid)) is Ok,
                Err(e) => start_result(reg, binary_path@.binary_path, if done {
                    Some(pid)
                } else {
                    None
                }) == Err::<Seq<ServiceView>, ServiceError>(e),
            },
            Action::Stop { service_name } => match request_of(action, reg) {
                Ok(request) => {
                    &&& request is Kill
                    &&& Some(request->Kill_pid) == reg[first_index(
                        reg,
                        service_name@.binary_path,
                    )].pid
                    &&& stop_result(reg, service_name@.binary_path, true) is Ok
                },
                Err(e) => stop_result(reg, service_name@.binary_path, done) == Err::<
                    Seq<ServiceView>,
                    ServiceError,
                >(e),
            },
        },
{
}

} // verus!
