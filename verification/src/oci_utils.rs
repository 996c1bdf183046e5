//! The slice of a bundle's manifest that this layer reads.
//!
//! A bundle's manifest carries an annotation map (string to string) plus the
//! process argument and environment lists.  Discovery reads the annotations;
//! the bootstrap listener reads the first process argument.  The manifest
//! file itself is parsed outside this crate and handed in as plain values.

use crate::bytestr::{bytes_eq, clone_bytes};
use vstd::prelude::*;

verus! {

/// One entry of a manifest's annotation map.
pub struct Annotation {
    pub key: Vec<u8>,
    pub value: Vec<u8>,
}

/// What this layer reads from one parsed manifest.
pub struct OciSpec {
    pub annotations: Vec<Annotation>,
    pub env: Vec<Vec<u8>>,
    pub args: Vec<Vec<u8>>,
}

/// The value stored under `key`, or the empty byte string when the map has
/// no such entry; of duplicate keys the first wins.
pub open spec fn spec_annotation_value(annots: Seq<Annotation>, key: Seq<u8>) -> Seq<u8>
    decreases annots.len(),
{
    if annots.len() == 0 {
        Seq::empty()
    } else if annots[0].key@ == key {
        annots[0].value@
    } else {
        spec_annotation_value(annots.drop_first(), key)
    }
}

/// The views of a list of byte strings.
pub open spec fn spec_views(s: Seq<Vec<u8>>) -> Seq<Seq<u8>> {
    s.map_values(|v: Vec<u8>| v@)
}

/// Looks an annotation up by key; a missing key reads as the empty value.
pub fn get_wasm_annotations(s: &OciSpec, key: &Vec<u8>) -> (r: Vec<u8>)
    ensures
        r@ == spec_annotation_value(s.annotations@, key@),
{
    let ghost all = s.annotations@;
    proof {
        assert(all.skip(0) =~= all);
    }
    let mut i: usize = 0;
    while i < s.annotations.len()
        invariant
            i <= all.len(),
            all == s.annotations@,
            spec_annotation_value(all, key@) == spec_annotation_value(
                all.skip(i as int),
                key@,
            ),
        decreases all.len() - i,
    {
        proof {
            assert(all.skip(i as int)[0] == all[i as int]);
        }
        if bytes_eq(&s.annotations[i].key, key) {
            return clone_bytes(&s.annotations[i].value);
        }
        proof {
            assert(all.skip(i as int).drop_first() =~= all.skip(i as int + 1));
        }
        i = i + 1;
    }
    proof {
        assert(all.skip(all.len() as int) =~= Seq::<Annotation>::empty());
    }
    Vec::new()
}

/// The environment list handed to the guest's standard environment.
pub fn env_to_wasi(s: &OciSpec) -> (r: Vec<Vec<u8>>)
    ensures
        spec_views(r@) == spec_views(s.env@),
        r@.len() == s.env@.len(),
{
    copy_byte_strings(&s.env)
}

/// The argument list handed to the guest's standard environment; the
/// bootstrap listener reads its upstream address from the first entry.
pub fn arg_to_wasi(s: &OciSpec) -> (r: Vec<Vec<u8>>)
    ensures
        spec_views(r@) == spec_views(s.args@),
        r@.len() == s.args@.len(),
{
    copy_byte_strings(&s.args)
}

fn copy_byte_strings(v: &Vec<Vec<u8>>) -> (r: Vec<Vec<u8>>)
    ensures
        spec_views(r@) == spec_views(v@),
        r@.len() == v@.len(),
{
    let mut r: Vec<Vec<u8>> = Vec::new();
    let mut i: usize = 0;
    while i < v.len()
        invariant
            i <= v.len(),
            r@.len() == i,
            spec_views(r@) =~= spec_views(v@.take(i as int)),
        decreases v.len() - i,
    {
        let ghost prev = r@;
        r.push(clone_bytes(&v[i]));
        proof {
            assert forall|j: int| 0 <= j < i + 1 implies spec_views(r@)[j] == spec_views(
                v@.take(i as int + 1),
            )[j] by {
                if j < i {
                    assert(spec_views(prev)[j] == spec_views(v@.take(i as int))[j]);
                    assert(spec_views(prev)[j] == prev[j]@);
                    assert(v@.take(i as int)[j] == v@[j]);
                    assert(r@[j] == prev[j]);
                } else {
                    assert(r@[j]@ == v@[i as int]@);
                }
                assert(spec_views(r@)[j] == r@[j]@);
                assert(v@.take(i as int + 1)[j] == v@[j]);
            }
            assert(spec_views(r@) =~= spec_views(v@.take(i as int + 1)));
        }
        i = i + 1;
    }
    proof {
        assert(spec_views(r@) =~= spec_views(v@));
    }
    r
}

} // verus!
