//! Assembly of the loaded file: the file's base name, the byte size
//! the format layer reported at open time, and the materialized
//! root-level entities. The I/O shell opens the container read-only,
//! walks it into a report, and hands both here; opening failures are
//! its own to signal (`Error::OpenError`) and never reach this code.

use crate::builder::{entity_built_from, group_err_matches};
use crate::model::{file_wf, Error, FileInfo, GroupInfo, LinkKind};
use crate::raw::{raw_group_ok, RawGroup};
use crate::text::{file_name_of, file_name_ok, file_name_spec};
use vstd::prelude::*;

verus! {

impl FileInfo {
    /// Build the in-memory snapshot of a container file. `path` is
    /// the path the file was opened under, `size` its total byte size
    /// as reported at open time, and `root` the format layer's report
    /// of the root group. The root has no real incoming link, so a
    /// hard one is synthesized for it; the root node itself is not
    /// retained — only its children surface as the file's entities.
    ///
    /// Fails with the invalid-name error when `path` has no
    /// extractable file-name component, and with the first failing
    /// child's error when the tree below the root cannot be built;
    /// no partial tree is ever returned.
    pub fn read(path: &str, size: u64, root: RawGroup) -> (r: Result<FileInfo, Error>)
        ensures
            r is Ok <==> (file_name_ok(path@) && raw_group_ok(root)),
            (r matches Ok(f) ==> {
                &&& f.name@ == file_name_spec(path@)
                &&& f.size == size
                &&& f.entities@.len() == root.children@.len()
                &&& (forall|i: int|
                    0 <= i < root.children@.len() ==> entity_built_from(
                        #[trigger] f.entities@[i],
                        root.children@[i],
                    ))
                &&& file_wf(f)
            }),
            !file_name_ok(path@) ==> r == Err::<FileInfo, Error>(Error::InvalidName),
            (file_name_ok(path@) && !raw_group_ok(root)) ==> (r matches Err(e)
                && group_err_matches(root, e)),
    {
        let name = match file_name_of(path) {
            Ok(n) => n,
            Err(e) => {
                return Err(e);
            },
        };
        let ghost root0 = root;
        let RawGroup { name_path, id, link: _, attrs, children } = root;
        // the file itself has no incoming link: synthesize a hard one
        let anchored = RawGroup { name_path, id, link: LinkKind::Hard, attrs, children };
        proof {
            assert(anchored.children == root0.children);
            assert(raw_group_ok(anchored) == raw_group_ok(root0));
        }
        let group = match GroupInfo::from_raw(anchored) {
            Ok(g) => g,
            Err(e) => {
                proof {
                    assert(group_err_matches(root0, e));
                }
                return Err(e);
            },
        };
        Ok(FileInfo { name, size, entities: group.entities })
    }
}

} // verus!
