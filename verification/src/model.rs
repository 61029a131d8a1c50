//! The owned entity tree: the data model of a loaded container file.
//!
//! Every type here holds plain values only; nothing refers back to the
//! file handle the data came from, so the tree survives after the file
//! is closed.

use vstd::prelude::*;

verus! {

/// How a parent group references a child, independent of the child's
/// own kind.
#[derive(Clone, Copy, Debug, PartialEq, Eq, Structural)]
pub enum LinkKind {
    Hard,
    Soft,
    External,
}

impl LinkKind {
    /// The display text of a link kind.
    pub open spec fn label_spec(self) -> Seq<char> {
        match self {
            LinkKind::Hard => "Hard"@,
            LinkKind::Soft => "Soft"@,
            LinkKind::External => "External"@,
        }
    }

    /// Render the link kind for display.
    pub fn label(&self) -> (r: String)
        ensures
            r@ == self.label_spec(),
    {
        match self {
            LinkKind::Hard => "Hard".to_owned(),
            LinkKind::Soft => "Soft".to_owned(),
            LinkKind::External => "External".to_owned(),
        }
    }
}

/// One stage of a chunked dataset's filter pipeline, as the format
/// layer identifies it: the native filter identifier and its ordered
/// client-data parameters.
#[derive(Debug, PartialEq, Eq)]
pub struct FilterInfo {
    pub id: i32,
    pub params: Vec<u32>,
}

/// A field of a compound element type.
#[derive(Debug, PartialEq, Eq)]
pub struct CompoundField {
    pub name: String,
    pub dtype: TypeDescr,
    pub offset: usize,
}

/// A structural description of a dataset's element type: primitive
/// kind and size, with compound and array nesting. Captured as plain
/// values so it stays valid after the file closes.
#[derive(Debug, PartialEq, Eq)]
pub enum TypeDescr {
    Integer { size: usize },
    Unsigned { size: usize },
    Float { size: usize },
    Boolean,
    Enumeration { size: usize, signed: bool },
    Compound { fields: Vec<CompoundField>, size: usize },
    FixedArray { elem: Box<TypeDescr>, len: usize },
    FixedString { len: usize, unicode: bool },
    VarLenArray { elem: Box<TypeDescr> },
    VarLenString { unicode: bool },
}

/// A dataset's physical storage strategy. Only chunked storage carries
/// extra data: the chunk shape and the ordered filter pipeline.
#[derive(Debug, PartialEq, Eq)]
pub enum DatasetLayoutInfo {
    Compact,
    Contiguous,
    Chunked { chunk_shape: Vec<usize>, filters: Vec<FilterInfo> },
    Virtual,
}

/// A leaf node: a typed, shaped array plus metadata. Payload bytes are
/// out of scope; only the description is kept.
#[derive(Debug, PartialEq, Eq)]
pub struct DatasetInfo {
    pub name: String,
    pub id: i64,
    pub link_type: LinkKind,
    pub shape: Vec<usize>,
    pub layout_info: DatasetLayoutInfo,
    pub dtype_descr: TypeDescr,
    pub attrs: Vec<(String, String)>,
}

/// A container node: an ordered sequence of child entities in the
/// discovery order the format layer reported, plus metadata.
#[derive(Debug, PartialEq, Eq)]
pub struct GroupInfo {
    pub name: String,
    pub id: i64,
    pub link_kind: LinkKind,
    pub entities: Vec<EntityInfo>,
    pub attrs: Vec<(String, String)>,
}

/// A node of the tree: either a group or a dataset. Dataset nodes
/// never have children.
#[derive(Debug, PartialEq, Eq)]
pub enum EntityInfo {
    Group(GroupInfo),
    Dataset(DatasetInfo),
}

/// The loaded file: its base name, its total byte size as reported at
/// open time, and the root-level entities.
#[derive(Debug, PartialEq, Eq)]
pub struct FileInfo {
    pub name: String,
    pub size: u64,
    pub entities: Vec<EntityInfo>,
}

/// Why an operation failed. Loading aborts on the first structural
/// failure; path resolution fails locally and leaves the tree intact.
#[derive(Debug, PartialEq, Eq)]
pub enum Error {
    /// The container could not be opened: path invalid, format
    /// unrecognized, or permission denied. Produced at the I/O
    /// boundary, never by this crate's own logic.
    OpenError,
    /// The file path has no extractable file-name component.
    InvalidName,
    /// A child link is neither a group nor a dataset; carries the
    /// offending link name. Fatal to the whole load.
    UnknownEntityKind(String),
    /// The format layer failed to expose required dataset metadata
    /// (element type, or chunk dimensions consistent with the shape).
    Format,
    /// Path resolution was asked for an empty index path.
    EmptyPath,
    /// A path index lies outside the entity sequence it indexes.
    IndexOutOfRange,
    /// A path tries to descend through a dataset.
    NotIndexable,
}

/// Attribute maps keep their keys unique within one entity.
pub open spec fn attrs_wf(m: Seq<(String, String)>) -> bool {
    forall|i: int, j: int| 0 <= i < j < m.len() ==> m[i].0@ != m[j].0@
}

/// A dataset is well formed when its attribute keys are unique and,
/// for chunked storage, the chunk shape has the same rank as the
/// dataset shape.
pub open spec fn dataset_wf(d: DatasetInfo) -> bool {
    &&& attrs_wf(d.attrs@)
    &&& (d.layout_info matches DatasetLayoutInfo::Chunked { chunk_shape, .. } ==> chunk_shape@.len()
        == d.shape@.len())
}

/// A group is well formed when its attribute keys are unique and all
/// of its children are well formed.
pub open spec fn group_wf(g: GroupInfo) -> bool
    decreases g,
{
    &&& attrs_wf(g.attrs@)
    &&& forall|i: int| 0 <= i < g.entities@.len() ==> entity_wf(#[trigger] g.entities@[i])
}

/// Well-formedness of one tree node.
pub open spec fn entity_wf(e: EntityInfo) -> bool
    decreases e,
{
    match e {
        EntityInfo::Group(g) => group_wf(g),
        EntityInfo::Dataset(d) => dataset_wf(d),
    }
}

/// Well-formedness of a loaded file: every root-level entity is well
/// formed.
pub open spec fn file_wf(f: FileInfo) -> bool {
    forall|i: int| 0 <= i < f.entities@.len() ==> entity_wf(#[trigger] f.entities@[i])
}

} // verus!
