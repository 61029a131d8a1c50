//! Name extraction from the slash-separated paths the format layer
//! reports: the last path segment of an entity, and the file-name
//! component of a file path.

use crate::model::Error;
use vstd::prelude::*;
use vstd::string::StrSliceExecFns;
use vstd::string::StringExecFns;

verus! {

/// The suffix of `s` after its last '/', or all of `s` when no '/'
/// occurs in it.
pub open spec fn last_segment_spec(s: Seq<char>) -> Seq<char>
    decreases s.len(),
{
    if s.len() == 0 {
        s
    } else if s.last() == '/' {
        Seq::empty()
    } else {
        last_segment_spec(s.drop_last()).push(s.last())
    }
}

/// `s` with every trailing '/' removed.
pub open spec fn strip_trailing_slashes(s: Seq<char>) -> Seq<char>
    decreases s.len(),
{
    if s.len() > 0 && s.last() == '/' {
        strip_trailing_slashes(s.drop_last())
    } else {
        s
    }
}

/// The file-name component of a path: the last segment once trailing
/// slashes are gone.
pub open spec fn file_name_spec(s: Seq<char>) -> Seq<char> {
    last_segment_spec(strip_trailing_slashes(s))
}

/// A path has an extractable file name when that component is neither
/// empty nor one of the relative-reference segments "." and "..".
pub open spec fn file_name_ok(s: Seq<char>) -> bool {
    let n = file_name_spec(s);
    &&& n.len() > 0
    &&& n != seq!['.']
    &&& n != seq!['.', '.']
}

/// When no '/' occurs at or after position `i` and position `i` sits
/// just after a '/' (or at the start), the last segment is exactly the
/// suffix from `i`.
proof fn lemma_last_segment_from(s: Seq<char>, i: int)
    requires
        0 <= i <= s.len(),
        forall|j: int| i <= j < s.len() ==> s[j] != '/',
        i == 0 || s[i - 1] == '/',
    ensures
        last_segment_spec(s) == s.subrange(i, s.len() as int),
    decreases s.len(),
{
    if s.len() == i {
        if i == 0 {
            assert(last_segment_spec(s) =~= s.subrange(0, 0));
        } else {
            assert(s.last() == s[i - 1]);
            assert(last_segment_spec(s) =~= s.subrange(i, i));
        }
    } else {
        assert(s.last() != '/');
        lemma_last_segment_from(s.drop_last(), i);
        assert(s.drop_last().subrange(i, s.len() - 1) =~= s.subrange(i, s.len() - 1));
        assert(last_segment_spec(s) =~= s.subrange(i, s.len() as int));
    }
}

/// When every position at or after `end` holds a '/' and `end` is not
/// preceded by one, stripping trailing slashes keeps exactly the first
/// `end` characters.
proof fn lemma_strip_to(s: Seq<char>, end: int)
    requires
        0 <= end <= s.len(),
        forall|j: int| end <= j < s.len() ==> s[j] == '/',
        end == 0 || s[end - 1] != '/',
    ensures
        strip_trailing_slashes(s) == s.subrange(0, end),
    decreases s.len(),
{
    if s.len() == end {
        assert(strip_trailing_slashes(s) =~= s.subrange(0, end));
    } else {
        assert(s.last() == '/');
        lemma_strip_to(s.drop_last(), end);
        assert(s.drop_last().subrange(0, end) =~= s.subrange(0, end));
    }
}

/// The last path segment of an entity name as the format layer
/// reports it: everything after the final '/'.
pub fn last_segment(path: &str) -> (r: String)
    ensures
        r@ == last_segment_spec(path@),
{
    let n = path.unicode_len();
    let cut = scan_segment_start(path, n);
    proof {
        lemma_last_segment_from(path@, cut as int);
    }
    path.substring_char(cut, n).to_owned()
}

/// The first position of the segment that ends at `end`: the index
/// just after the last '/' strictly before `end`, or 0.
fn scan_segment_start(path: &str, end: usize) -> (cut: usize)
    requires
        end <= path@.len(),
    ensures
        cut <= end,
        cut == 0 || path@[cut - 1] == '/',
        forall|j: int| cut <= j < end ==> path@[j] != '/',
{
    let mut cut: usize = 0;
    let mut i: usize = 0;
    while i < end
        invariant
            i <= end,
            end <= path@.len(),
            cut <= i,
            cut == 0 || path@[cut - 1] == '/',
            forall|j: int| cut <= j < i ==> path@[j] != '/',
        decreases end - i,
    {
        if path.get_char(i) == '/' {
            cut = i + 1;
        }
        i = i + 1;
    }
    cut
}

/// The file-name component of `path`, or `Error::InvalidName` when
/// the path has none. Trailing slashes are ignored; an empty result
/// and the segments "." and ".." count as no file name.
pub fn file_name_of(path: &str) -> (r: Result<String, Error>)
    ensures
        file_name_ok(path@) ==> (r matches Ok(n) && n@ == file_name_spec(path@)),
        !file_name_ok(path@) ==> r == Err::<String, Error>(Error::InvalidName),
{
    let n = path.unicode_len();
    let mut end: usize = n;
    while end > 0 && path.get_char(end - 1) == '/'
        invariant
            end <= n,
            n == path@.len(),
            forall|j: int| end <= j < n ==> path@[j] == '/',
        decreases end,
    {
        end = end - 1;
    }
    proof {
        lemma_strip_to(path@, end as int);
    }
    let cut = scan_segment_start(path, end);
    proof {
        lemma_last_segment_from(path@.subrange(0, end as int), cut as int);
        assert(path@.subrange(0, end as int).subrange(cut as int, end as int) =~= path@.subrange(
            cut as int,
            end as int,
        ));
    }
    proof {
        assert(file_name_spec(path@) =~= path@.subrange(cut as int, end as int));
    }
    let ghost sub = path@.subrange(cut as int, end as int);
    let seg_len = end - cut;
    if seg_len == 0 {
        return Err(Error::InvalidName);
    }
    if seg_len == 1 && path.get_char(cut) == '.' {
        proof {
            assert(sub[0] == path@[cut as int]);
            assert(sub =~= seq!['.']);
        }
        return Err(Error::InvalidName);
    }
    if seg_len == 2 && path.get_char(cut) == '.' && path.get_char(cut + 1) == '.' {
        proof {
            assert(sub[0] == path@[cut as int]);
            assert(sub[1] == path@[cut as int + 1]);
            assert(sub =~= seq!['.', '.']);
        }
        return Err(Error::InvalidName);
    }
    proof {
        if sub == seq!['.'] {
            assert(sub[0] == path@[cut as int]);
            assert(sub[0] == '.');
        }
        if sub == seq!['.', '.'] {
            assert(sub[0] == path@[cut as int]);
            assert(sub[1] == path@[cut as int + 1]);
            assert(sub[0] == '.' && sub[1] == '.');
        }
    }
    Ok(path.substring_char(cut, end).to_owned())
}

} // verus!
