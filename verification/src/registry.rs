//! The registry: the ordered list of tracked services.

use crate::service::{Service, ServiceView};
use vstd::prelude::*;

verus! {

/// Some record of `reg` has the path `path`.
pub open spec fn has_path(reg: Seq<ServiceView>, path: Seq<char>) -> bool {
    exists|i: int| 0 <= i < reg.len() && (#[trigger] reg[i]).binary_path == path
}

/// `i` is the position of the first record of `reg` with the path `path`.
pub open spec fn is_first_match(reg: Seq<ServiceView>, path: Seq<char>, i: int) -> bool {
    &&& 0 <= i < reg.len()
    &&& reg[i].binary_path == path
    &&& forall|j: int| 0 <= j < i ==> (#[trigger] reg[j]).binary_path != path
}

/// The position of the first record of `reg` with the path `path`, where
/// there is one.
pub open spec fn first_index(reg: Seq<ServiceView>, path: Seq<char>) -> int {
    choose|i: int| is_first_match(reg, path, i)
}

/// No two records of `reg` share a path.
pub open spec fn unique_paths(reg: Seq<ServiceView>) -> bool {
    forall|i: int, j: int|
        0 <= i < j < reg.len() ==> (#[trigger] reg[i]).binary_path != (#[trigger] reg[j]).binary_path
}

/// `reg` holds exactly one record with the path `path`.
pub open spec fn exactly_one(reg: Seq<ServiceView>, path: Seq<char>) -> bool {
    exists|i: int|
        {
            &&& 0 <= i < reg.len()
            &&& (#[trigger] reg[i]).binary_path == path
            &&& forall|j: int|
                0 <= j < reg.len() && (#[trigger] reg[j]).binary_path == path ==> j == i
        }
}

/// A record at position `k` with the path `path` is preceded by, or is, a
/// first such record.
proof fn lemma_least_match(reg: Seq<ServiceView>, path: Seq<char>, k: int)
    requires
        0 <= k < reg.len(),
        reg[k].binary_path == path,
    ensures
        exists|i: int| is_first_match(reg, path, i),
    decreases k,
{
    if forall|j: int| 0 <= j < k ==> (#[trigger] reg[j]).binary_path != path {
        assert(is_first_match(reg, path, k));
    } else {
        let j = choose|j: int| 0 <= j < k && (#[trigger] reg[j]).binary_path == path;
        lemma_least_match(reg, path, j);
    }
}

/// Where a path occurs, `first_index` is the position of its first record.
pub proof fn lemma_first_index(reg: Seq<ServiceView>, path: Seq<char>)
    requires
        has_path(reg, path),
    ensures
        is_first_match(reg, path, first_index(reg, path)),
{
    let k = choose|i: int| 0 <= i < reg.len() && (#[trigger] reg[i]).binary_path == path;
    lemma_least_match(reg, path, k);
}

/// There is at most one first record: any position that is one is
/// `first_index`.
pub proof fn lemma_first_match_is_first_index(reg: Seq<ServiceView>, path: Seq<char>, i: int)
    requires
        is_first_match(reg, path, i),
    ensures
        has_path(reg, path),
        first_index(reg, path) == i,
{
    let k = first_index(reg, path);
    assert(is_first_match(reg, path, k));
    if k < i {
        assert(reg[k].binary_path != path);
    }
    if i < k {
        assert(reg[i].binary_path != path);
    }
}

/// The ordered list of tracked services, oldest first.
///
/// No two records of a registry that this library has built share a path.
/// A list read from disk is taken as it is: the operations accept any list,
/// and keep the paths unique where they were.
#[derive(Debug, Clone, PartialEq, Eq)]
pub struct Registry {
    pub records: Vec<Service>,
}

impl View for Registry {
    type V = Seq<ServiceView>;

    open spec fn view(&self) -> Seq<ServiceView> {
        Seq::new(self.records@.len(), |i: int| self.records@[i]@)
    }
}

impl Registry {
    /// The registry that tracks nothing.
    pub fn new() -> (r: Registry)
        ensures
            r@ == Seq::<ServiceView>::empty(),
            unique_paths(r@),
    {
        let r = Registry { records: Vec::new() };
        assert(r@ =~= Seq::<ServiceView>::empty());
        r
    }

    /// The position of the first record with the path `path`, found by
    /// scanning from the front; `None` where no record has it.
    pub fn position(&self, path: &String) -> (r: Option<usize>)
        ensures
            match r {
                Some(i) => has_path(self@, path@) && is_first_match(self@, path@, i as int)
                    && first_index(self@, path@) == i,
                None => !has_path(self@, path@),
            },
    {
        let mut i: usize = 0;
        while i < self.records.len()
            invariant
                0 <= i <= self.records.len(),
                forall|j: int| 0 <= j < i ==> (#[trigger] self@[j]).binary_path != path@,
            decreases self.records.len() - i,
        {
            if self.records[i].binary_path == *path {
                proof {
                    assert(self@[i as int].binary_path == path@);
                    lemma_first_match_is_first_index(self@, path@, i as int);
                }
                return Some(i);
            }
            i += 1;
        }
        None
    }

    /// Whether some record has the path `path`.
    pub fn contains(&self, path: &String) -> (r: bool)
        ensures
            r == has_path(self@, path@),
    {
        self.position(path).is_some()
    }
}

} // verus!
