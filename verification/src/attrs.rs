//! Assembly of an entity's attribute map from what the format layer
//! reports: an optional name listing (listing failure degrades to an
//! empty map) with, per name, an optional rendered value (a failed
//! read drops that attribute, consistent with the listing policy).
//! Keys stay unique; a repeated name keeps its first position and
//! takes the latest value, as a map insertion would.

use crate::model::attrs_wf;
use vstd::pervasive::VecAdditionalExecFns;
use vstd::prelude::*;

verus! {

/// Map insertion over an association list: replace the value of an
/// existing key in place, else append the pair.
pub open spec fn upsert_spec(m: Seq<(String, String)>, k: String, v: String) -> Seq<
    (String, String),
>
    decreases m.len(),
{
    if m.len() == 0 {
        seq![(k, v)]
    } else if m[0].0@ == k@ {
        seq![(m[0].0, v)] + m.subrange(1, m.len() as int)
    } else {
        seq![m[0]] + upsert_spec(m.subrange(1, m.len() as int), k, v)
    }
}

/// The attribute map built by walking the listed entries in order.
pub open spec fn fold_attrs(acc: Seq<(String, String)>, rest: Seq<(String, Option<String>)>) -> Seq<
    (String, String),
>
    decreases rest.len(),
{
    if rest.len() == 0 {
        acc
    } else {
        let acc2 = match rest[0].1 {
            Some(v) => upsert_spec(acc, rest[0].0, v),
            None => acc,
        };
        fold_attrs(acc2, rest.subrange(1, rest.len() as int))
    }
}

/// What `get_attrs` returns: empty when listing failed, else the fold
/// of the listed entries.
pub open spec fn get_attrs_spec(raw: Option<Vec<(String, Option<String>)>>) -> Seq<
    (String, String),
> {
    match raw {
        None => Seq::empty(),
        Some(entries) => fold_attrs(Seq::empty(), entries@),
    }
}

/// Insertion at a found key rewrites exactly that element, keeping
/// its key.
proof fn lemma_upsert_found(m: Seq<(String, String)>, k: String, v: String, i: int)
    requires
        0 <= i < m.len(),
        m[i].0@ == k@,
        forall|j: int| 0 <= j < i ==> m[j].0@ != k@,
    ensures
        upsert_spec(m, k, v) == m.update(i, (m[i].0, v)),
    decreases i,
{
    if i == 0 {
        assert(upsert_spec(m, k, v) =~= m.update(0, (m[0].0, v)));
    } else {
        lemma_upsert_found(m.subrange(1, m.len() as int), k, v, i - 1);
        assert(m.subrange(1, m.len() as int)[i - 1] == m[i]);
        assert(upsert_spec(m, k, v) =~= m.update(i, (m[i].0, v)));
    }
}

/// Insertion of a fresh key appends the pair.
proof fn lemma_upsert_absent(m: Seq<(String, String)>, k: String, v: String)
    requires
        forall|j: int| 0 <= j < m.len() ==> m[j].0@ != k@,
    ensures
        upsert_spec(m, k, v) == m.push((k, v)),
    decreases m.len(),
{
    if m.len() == 0 {
        assert(upsert_spec(m, k, v) =~= m.push((k, v)));
    } else {
        lemma_upsert_absent(m.subrange(1, m.len() as int), k, v);
        assert(upsert_spec(m, k, v) =~= m.push((k, v)));
    }
}

/// Insert-or-replace on the association list held in a `Vec`,
/// preserving key uniqueness.
fn upsert(out: &mut Vec<(String, String)>, k: String, v: String)
    ensures
        final(out)@ == upsert_spec(old(out)@, k, v),
        attrs_wf(old(out)@) ==> attrs_wf(final(out)@),
{
    let mut i: usize = 0;
    while i < out.len()
        invariant
            i <= out.len(),
            out@ == old(out)@,
            forall|j: int| 0 <= j < i ==> out@[j].0@ != k@,
        decreases out.len() - i,
    {
        if out[i].0 == k {
            let key = out[i].0.clone();
            out.set(i, (key, v));
            proof {
                lemma_upsert_found(old(out)@, k, v, i as int);
                assert forall|p: int, q: int| 0 <= p < q < out@.len() && attrs_wf(old(out)@) implies
                    out@[p].0@ != out@[q].0@ by {
                    assert(out@[p].0@ == old(out)@[p].0@);
                    assert(out@[q].0@ == old(out)@[q].0@);
                }
            }
            return ;
        }
        i = i + 1;
    }
    out.push((k, v));
    proof {
        lemma_upsert_absent(old(out)@, k, v);
    }
}

/// Build the attribute map from the format layer's report. A missing
/// listing yields an empty map; a listed name whose value could not
/// be read is skipped. The result's keys are unique.
pub fn get_attrs(raw: Option<Vec<(String, Option<String>)>>) -> (r: Vec<(String, String)>)
    ensures
        r@ == get_attrs_spec(raw),
        attrs_wf(r@),
{
    match raw {
        None => Vec::new(),
        Some(entries) => {
            let mut out: Vec<(String, String)> = Vec::new();
            let mut i: usize = 0;
            proof {
                assert(entries@.subrange(0, entries@.len() as int) =~= entries@);
            }
            while i < entries.len()
                invariant
                    i <= entries.len(),
                    attrs_wf(out@),
                    fold_attrs(out@, entries@.subrange(i as int, entries@.len() as int))
                        == fold_attrs(Seq::empty(), entries@),
                decreases entries.len() - i,
            {
                let ghost out_before = out@;
                let ghost rest = entries@.subrange(i as int, entries@.len() as int);
                let name = entries[i].0.clone();
                match &entries[i].1 {
                    Some(v) => {
                        let value = v.clone();
                        upsert(&mut out, name, value);
                    },
                    None => {},
                }
                proof {
                    assert(rest[0] == entries@[i as int]);
                    assert(rest.subrange(1, rest.len() as int) =~= entries@.subrange(
                        i + 1,
                        entries@.len() as int,
                    ));
                }
                i = i + 1;
            }
            proof {
                assert(entries@.subrange(i as int, entries@.len() as int) =~= Seq::<
                    (String, Option<String>),
                >::empty());
            }
            out
        },
    }
}

} // verus!
