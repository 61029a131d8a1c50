//! Path resolution: walking the built tree along a sequence of
//! child-position indices. A query never mutates the tree; it either
//! borrows the addressed node or fails with one of the three
//! resolution errors.

use crate::model::{EntityInfo, Error, FileInfo};
use vstd::prelude::*;

verus! {

/// Resolution continued from a node already reached: an empty rest
/// of the path addresses that node; descending is only legal through
/// a group, and only within the range of its children.
pub open spec fn resolve_from(e: EntityInfo, path: Seq<usize>) -> Result<EntityInfo, Error>
    decreases path.len(),
{
    if path.len() == 0 {
        Ok(e)
    } else {
        match e {
            EntityInfo::Group(g) => {
                if path[0] >= g.entities@.len() {
                    Err(Error::IndexOutOfRange)
                } else {
                    resolve_from(g.entities@[path[0] as int], path.subrange(1, path.len() as int))
                }
            },
            EntityInfo::Dataset(_) => Err(Error::NotIndexable),
        }
    }
}

/// What resolving a path against the root-level entities returns:
/// the empty path fails, the first index picks a root entity, and
/// the rest of the path descends from there. A pure function of the
/// tree and the path, so resolution is deterministic.
pub open spec fn resolve_spec(entities: Seq<EntityInfo>, path: Seq<usize>) -> Result<
    EntityInfo,
    Error,
> {
    if path.len() == 0 {
        Err(Error::EmptyPath)
    } else if path[0] >= entities.len() {
        Err(Error::IndexOutOfRange)
    } else {
        resolve_from(entities[path[0] as int], path.subrange(1, path.len() as int))
    }
}

/// Resolving the empty path always fails with the empty-path error,
/// whatever the tree.
pub proof fn lemma_resolve_empty_path(entities: Seq<EntityInfo>)
    ensures
        resolve_spec(entities, Seq::<usize>::empty()) == Err::<EntityInfo, Error>(Error::EmptyPath),
{
}

/// Continuing past a dataset fails: if some proper prefix of the
/// remaining path reaches a dataset node, the full remaining path
/// yields the not-indexable error.
proof fn lemma_from_dataset_prefix(e: EntityInfo, path: Seq<usize>, k: int)
    requires
        0 <= k < path.len(),
        resolve_from(e, path.subrange(0, k)) matches Ok(d) && d is Dataset,
    ensures
        resolve_from(e, path) == Err::<EntityInfo, Error>(Error::NotIndexable),
    decreases k,
{
    let prefix = path.subrange(0, k);
    if k == 0 {
        assert(prefix.len() == 0);
        assert(e is Dataset);
    } else {
        match e {
            EntityInfo::Group(g) => {
                assert(prefix[0] == path[0]);
                assert(prefix[0] < g.entities@.len());
                let child = g.entities@[path[0] as int];
                let rest = path.subrange(1, path.len() as int);
                assert(prefix.subrange(1, k) =~= rest.subrange(0, k - 1));
                lemma_from_dataset_prefix(child, rest, k - 1);
            },
            EntityInfo::Dataset(_) => {
                assert(resolve_from(e, prefix) is Err);
            },
        }
    }
}

/// If a proper prefix of a path addresses a dataset node, resolving
/// the whole path always fails with the not-indexable error.
pub proof fn lemma_dataset_prefix_not_indexable(
    entities: Seq<EntityInfo>,
    path: Seq<usize>,
    k: int,
)
    requires
        1 <= k < path.len(),
        resolve_spec(entities, path.subrange(0, k)) matches Ok(d) && d is Dataset,
    ensures
        resolve_spec(entities, path) == Err::<EntityInfo, Error>(Error::NotIndexable),
{
    let prefix = path.subrange(0, k);
    assert(prefix[0] == path[0]);
    let child = entities[path[0] as int];
    let rest = path.subrange(1, path.len() as int);
    assert(prefix.subrange(1, k) =~= rest.subrange(0, k - 1));
    lemma_from_dataset_prefix(child, rest, k - 1);
}

impl FileInfo {
    /// Resolve a child-index path against the tree, borrowing the
    /// addressed node. Fails with the empty-path error on an empty
    /// path, the out-of-range error when an index exceeds the entity
    /// sequence it indexes, and the not-indexable error when the path
    /// tries to descend through a dataset. The tree is never changed.
    #[verifier::loop_isolation(false)]
    pub fn entity(&self, index: Vec<usize>) -> (r: Result<&EntityInfo, Error>)
        ensures
            (r matches Ok(e) ==> resolve_spec(self.entities@, index@) == Ok::<EntityInfo, Error>(
                *e,
            )),
            (r matches Err(err) ==> resolve_spec(self.entities@, index@) == Err::<
                EntityInfo,
                Error,
            >(err)),
    {
        if index.len() == 0 {
            return Err(Error::EmptyPath);
        }
        let idx0 = index[0];
        if idx0 >= self.entities.len() {
            return Err(Error::IndexOutOfRange);
        }
        let mut cur: &EntityInfo = &self.entities[idx0];
        let mut k: usize = 1;
        while k < index.len()
            invariant
                1 <= k <= index@.len(),
                resolve_from(*cur, index@.subrange(k as int, index@.len() as int)) == resolve_spec(
                    self.entities@,
                    index@,
                ),
            decreases index@.len() - k,
        {
            let ghost remaining = index@.subrange(k as int, index@.len() as int);
            proof {
                assert(remaining[0] == index@[k as int]);
                assert(remaining.subrange(1, remaining.len() as int) =~= index@.subrange(
                    k as int + 1,
                    index@.len() as int,
                ));
            }
            let idx = index[k];
            match cur {
                EntityInfo::Group(g) => {
                    if idx >= g.entities.len() {
                        return Err(Error::IndexOutOfRange);
                    }
                    cur = &g.entities[idx];
                },
                EntityInfo::Dataset(_) => {
                    return Err(Error::NotIndexable);
                },
            }
            k = k + 1;
        }
        proof {
            assert(index@.subrange(k as int, index@.len() as int) =~= Seq::<usize>::empty());
        }
        Ok(cur)
    }
}

} // verus!
