//! The discovery-and-materialization core: recursive, depth-first
//! construction of the owned entity tree from the format layer's
//! report. Sibling order is preserved exactly; the first child of
//! unknown kind, or the first structurally deficient dataset, aborts
//! the whole build (no partial tree escapes).

use crate::attrs::{get_attrs, get_attrs_spec};
use crate::model::{
    dataset_wf, entity_wf, group_wf, DatasetInfo, DatasetLayoutInfo, EntityInfo, Error,
    GroupInfo,
};
use crate::raw::{raw_child_ok, raw_dataset_ok, raw_group_ok, RawChild, RawDataset, RawGroup,
    RawLayout};
use crate::text::{last_segment, last_segment_spec};
use vstd::prelude::*;

verus! {

/// The layout descriptor a built dataset must carry, given its
/// report: the same tag, and for chunked storage the reported chunk
/// dimensions and filter pipeline.
pub open spec fn layout_built_from(l: DatasetLayoutInfo, raw: RawDataset) -> bool {
    match raw.layout {
        RawLayout::Compact => l is Compact,
        RawLayout::Contiguous => l is Contiguous,
        RawLayout::Virtual => l is Virtual,
        RawLayout::Chunked => (l matches DatasetLayoutInfo::Chunked { chunk_shape, filters }
            && raw.chunk_shape matches Some(c) && chunk_shape@ == c@ && filters@ == raw.filters@),
    }
}

/// The dataset node a report materializes to: name is the last path
/// segment, identity and link carry over, shape and element type are
/// the reported ones, attributes are the assembled map.
pub open spec fn dataset_built_from(d: DatasetInfo, raw: RawDataset) -> bool {
    &&& d.name@ == last_segment_spec(raw.name_path@)
    &&& d.id == raw.id
    &&& d.link_type == raw.link
    &&& d.shape@ == raw.shape@
    &&& layout_built_from(d.layout_info, raw)
    &&& (raw.dtype matches Some(t) && d.dtype_descr == t)
    &&& d.attrs@ == get_attrs_spec(raw.attrs)
}

/// The group node a report materializes to; children correspond to
/// the reported children index by index, in discovery order.
pub open spec fn group_built_from(g: GroupInfo, raw: RawGroup) -> bool
    decreases raw,
{
    &&& g.name@ == last_segment_spec(raw.name_path@)
    &&& g.id == raw.id
    &&& g.link_kind == raw.link
    &&& g.attrs@ == get_attrs_spec(raw.attrs)
    &&& g.entities@.len() == raw.children@.len()
    &&& (forall|i: int|
        0 <= i < raw.children@.len() ==> entity_built_from(
            #[trigger] g.entities@[i],
            raw.children@[i],
        ))
}

/// The entity a reported child materializes to: kind follows how the
/// link opened; an unknown kind materializes to nothing.
pub open spec fn entity_built_from(e: EntityInfo, c: RawChild) -> bool
    decreases c,
{
    match c {
        RawChild::Group(rg) => (e matches EntityInfo::Group(g) && group_built_from(g, rg)),
        RawChild::Dataset(rd) => (e matches EntityInfo::Dataset(d) && dataset_built_from(d, rd)),
        RawChild::Unknown { .. } => false,
    }
}

/// The error a failing child build yields: the unknown-kind error
/// with the offending link's name, the format error for a deficient
/// dataset, or, within a sub-group, whatever its own first failing
/// child yields.
pub open spec fn child_err_matches(c: RawChild, e: Error) -> bool
    decreases c,
{
    match c {
        RawChild::Group(rg) => group_err_matches(rg, e),
        RawChild::Dataset(rd) => !raw_dataset_ok(rd) && e == Error::Format,
        RawChild::Unknown { name } => (e matches Error::UnknownEntityKind(n) && n@ == name@),
    }
}

/// The error a failing group build yields: that of its first child
/// that cannot be built.
pub open spec fn group_err_matches(raw: RawGroup, e: Error) -> bool
    decreases raw,
{
    exists|i: int|
        0 <= i < raw.children@.len() && !raw_child_ok(#[trigger] raw.children@[i]) && (forall|
            j: int,
        |
            0 <= j < i ==> raw_child_ok(#[trigger] raw.children@[j])) && child_err_matches(
            raw.children@[i],
            e,
        )
}

impl DatasetInfo {
    /// Materialize one dataset node from its report. Succeeds exactly
    /// when the report is structurally complete; a missing element
    /// type, or chunked storage without chunk dimensions of the
    /// dataset's rank, fails with the format error.
    pub fn from_raw(raw: RawDataset) -> (r: Result<DatasetInfo, Error>)
        ensures
            r is Ok <==> raw_dataset_ok(raw),
            (r matches Ok(d) ==> dataset_built_from(d, raw) && dataset_wf(d)),
            (r matches Err(e) ==> e == Error::Format),
    {
        let RawDataset { name_path, id, link, shape, layout, chunk_shape, filters, dtype, attrs } =
            raw;
        let name = last_segment(name_path.as_str());
        let built_attrs = get_attrs(attrs);
        let layout_info = match layout {
            RawLayout::Compact => DatasetLayoutInfo::Compact,
            RawLayout::Contiguous => DatasetLayoutInfo::Contiguous,
            RawLayout::Virtual => DatasetLayoutInfo::Virtual,
            RawLayout::Chunked => {
                match chunk_shape {
                    Some(c) => {
                        if c.len() == shape.len() {
                            DatasetLayoutInfo::Chunked { chunk_shape: c, filters }
                        } else {
                            return Err(Error::Format);
                        }
                    },
                    None => {
                        return Err(Error::Format);
                    },
                }
            },
        };
        let dtype_descr = match dtype {
            Some(t) => t,
            None => {
                return Err(Error::Format);
            },
        };
        Ok(DatasetInfo { name, id, link_type: link, shape, layout_info, dtype_descr, attrs: built_attrs })
    }
}

impl GroupInfo {
    /// The traversal engine: materialize a group and, depth first,
    /// everything below it. Children are built in discovery order and
    /// inserted in that order; the first child that cannot be built
    /// aborts the whole group with that child's error.
    #[verifier::loop_isolation(false)]
    pub fn from_raw(raw: RawGroup) -> (r: Result<GroupInfo, Error>)
        ensures
            r is Ok <==> raw_group_ok(raw),
            (r matches Ok(g) ==> group_built_from(g, raw) && group_wf(g)),
            (r matches Err(e) ==> group_err_matches(raw, e)),
        decreases raw,
    {
        let ghost raw0 = raw;
        let RawGroup { name_path, id, link, attrs, mut children } = raw;
        let name = last_segment(name_path.as_str());
        let built_attrs = get_attrs(attrs);
        let mut entities: Vec<EntityInfo> = Vec::new();
        proof {
            assert(children@ =~= raw0.children@.subrange(0, raw0.children@.len() as int));
        }
        while children.len() > 0
            invariant
                entities@.len() + children@.len() == raw0.children@.len(),
                children@ == raw0.children@.subrange(
                    entities@.len() as int,
                    raw0.children@.len() as int,
                ),
                forall|j: int|
                    0 <= j < entities@.len() ==> raw_child_ok(#[trigger] raw0.children@[j])
                        && entity_built_from(entities@[j], raw0.children@[j]) && entity_wf(
                        entities@[j],
                    ),
            decreases children.len(),
        {
            let ghost done = entities@.len() as int;
            let c = children.remove(0);
            let ghost c0 = c;
            proof {
                assert(c0 == raw0.children@[done]);
                assert(children@ =~= raw0.children@.subrange(
                    done + 1,
                    raw0.children@.len() as int,
                ));
                assert(decreases_to!(raw0 => raw0.children));
                assert(decreases_to!(raw0.children => raw0.children@));
                assert(decreases_to!(raw0.children@ => raw0.children@[done]));
            }
            match c {
                RawChild::Group(rg) => {
                    proof {
                        assert(c0 == RawChild::Group(rg));
                        assert(decreases_to!(c0 => rg));
                    }
                    match GroupInfo::from_raw(rg) {
                        Ok(g) => entities.push(EntityInfo::Group(g)),
                        Err(e) => {
                            proof {
                                assert(!raw_child_ok(raw0.children@[done]));
                                assert(!raw_group_ok(raw0));
                                assert(child_err_matches(raw0.children@[done], e));
                                assert(group_err_matches(raw0, e));
                            }
                            return Err(e);
                        },
                    }
                },
                RawChild::Dataset(rd) => {
                    proof {
                        assert(c0 == RawChild::Dataset(rd));
                    }
                    match DatasetInfo::from_raw(rd) {
                        Ok(d) => entities.push(EntityInfo::Dataset(d)),
                        Err(e) => {
                            proof {
                                assert(!raw_child_ok(raw0.children@[done]));
                                assert(!raw_group_ok(raw0));
                                assert(child_err_matches(raw0.children@[done], e));
                                assert(group_err_matches(raw0, e));
                            }
                            return Err(e);
                        },
                    }
                },
                RawChild::Unknown { name: link_name } => {
                    let ghost link_name0 = link_name;
                    proof {
                        assert(c0 == (RawChild::Unknown { name: link_name0 }));
                        assert(!raw_child_ok(raw0.children@[done]));
                        assert(!raw_group_ok(raw0));
                    }
                    let err = Error::UnknownEntityKind(link_name);
                    proof {
                        assert(child_err_matches(raw0.children@[done], err));
                        assert(group_err_matches(raw0, err));
                    }
                    return Err(err);
                },
            }
        }
        Ok(GroupInfo { name, id, link_kind: link, entities, attrs: built_attrs })
    }
}

} // verus!
