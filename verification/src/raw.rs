//! What the format layer reports about the nodes it discovers, as
//! plain values. The I/O shell walks the container's link graph,
//! opening each child link as a group or as a dataset, and records
//! here what it saw; the verified builders turn this report into the
//! owned entity tree.

use crate::model::{FilterInfo, LinkKind, TypeDescr};
use vstd::prelude::*;

verus! {

/// The storage-layout tag the format layer reports for a dataset.
#[derive(Clone, Copy, Debug, PartialEq, Eq, Structural)]
pub enum RawLayout {
    Compact,
    Contiguous,
    Chunked,
    Virtual,
}

/// One dataset as reported: identity, incoming link, shape, layout
/// tag with the chunk dimensions and filter pipeline the layer could
/// supply, the element-type description if it could be read, and the
/// attribute listing (`None` when listing itself failed, and per
/// attribute `None` when its value could not be read).
#[derive(Debug)]
pub struct RawDataset {
    pub name_path: String,
    pub id: i64,
    pub link: LinkKind,
    pub shape: Vec<usize>,
    pub layout: RawLayout,
    pub chunk_shape: Option<Vec<usize>>,
    pub filters: Vec<FilterInfo>,
    pub dtype: Option<TypeDescr>,
    pub attrs: Option<Vec<(String, Option<String>)>>,
}

/// One group as reported, with its children in the discovery order of
/// the layer's link iteration.
#[derive(Debug)]
pub struct RawGroup {
    pub name_path: String,
    pub id: i64,
    pub link: LinkKind,
    pub attrs: Option<Vec<(String, Option<String>)>>,
    pub children: Vec<RawChild>,
}

/// One child link: it opened as a group, as a dataset, or as neither
/// (an unknown entity kind, which aborts the build).
#[derive(Debug)]
pub enum RawChild {
    Group(RawGroup),
    Dataset(RawDataset),
    Unknown { name: String },
}

/// A reported dataset is buildable when its element type was read
/// and, for chunked storage, the chunk dimensions were supplied with
/// the dataset's own rank.
pub open spec fn raw_dataset_ok(raw: RawDataset) -> bool {
    &&& raw.dtype is Some
    &&& (raw.layout == RawLayout::Chunked ==> (raw.chunk_shape matches Some(c) && c@.len()
        == raw.shape@.len()))
}

/// A reported group is buildable when every child is.
pub open spec fn raw_group_ok(raw: RawGroup) -> bool
    decreases raw,
{
    forall|i: int| 0 <= i < raw.children@.len() ==> raw_child_ok(#[trigger] raw.children@[i])
}

/// A reported child is buildable unless it is of unknown kind or its
/// own report is not.
pub open spec fn raw_child_ok(c: RawChild) -> bool
    decreases c,
{
    match c {
        RawChild::Group(g) => raw_group_ok(g),
        RawChild::Dataset(d) => raw_dataset_ok(d),
        RawChild::Unknown { .. } => false,
    }
}

} // verus!
