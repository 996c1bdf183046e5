//! Small executable helpers over byte strings.
//!
//! Paths, annotation keys and values, payloads and addresses all travel
//! through this crate as byte strings (`Vec<u8>`), so equality tests and
//! copies of them are needed everywhere.

use vstd::prelude::*;

verus! {

/// Byte-for-byte equality of two byte strings.
pub fn bytes_eq(a: &Vec<u8>, b: &Vec<u8>) -> (r: bool)
    ensures
        r <==> a@ == b@,
{
    if a.len() != b.len() {
        assert(a@ != b@);
        return false;
    }
    let mut i: usize = 0;
    while i < a.len()
        invariant
            i <= a.len(),
            a@.len() == b@.len(),
            forall|j: int| 0 <= j < i ==> a@[j] == b@[j],
        decreases a.len() - i,
    {
        if a[i] != b[i] {
            return false;
        }
        i = i + 1;
    }
    assert(a@ =~= b@);
    true
}

/// Appends a copy of `src` to `dst`.
pub fn append_bytes(dst: &mut Vec<u8>, src: &Vec<u8>)
    ensures
        final(dst)@ == old(dst)@ + src@,
{
    let mut j: usize = 0;
    while j < src.len()
        invariant
            j <= src@.len(),
            dst@ =~= old(dst)@ + src@.take(j as int),
        decreases src@.len() - j,
    {
        dst.push(src[j]);
        proof {
            assert(dst@ =~= old(dst)@ + src@.take(j as int + 1));
        }
        j = j + 1;
    }
    proof {
        assert(dst@ =~= old(dst)@ + src@);
    }
}

/// An owned copy of `len` bytes of a byte string starting at `address`.
pub fn copy_range(v: &Vec<u8>, address: usize, len: usize) -> (r: Vec<u8>)
    requires
        address + len <= v@.len(),
    ensures
        r@ == v@.subrange(address as int, address + len),
{
    let mut r: Vec<u8> = Vec::new();
    let mut j: usize = 0;
    while j < len
        invariant
            j <= len,
            address + len <= v@.len(),
            r@ =~= v@.subrange(address as int, address + j),
        decreases len - j,
    {
        let n = v.len();
        proof {
            assert(address + j < n);
        }
        r.push(v[address + j]);
        proof {
            assert(r@ =~= v@.subrange(address as int, address + j + 1));
        }
        j = j + 1;
    }
    r
}

/// An owned copy of a byte string.
pub fn clone_bytes(v: &Vec<u8>) -> (r: Vec<u8>)
    ensures
        r@ == v@,
{
    let mut r: Vec<u8> = Vec::new();
    let mut i: usize = 0;
    while i < v.len()
        invariant
            i <= v.len(),
            r@ =~= v@.take(i as int),
        decreases v.len() - i,
    {
        r.push(v[i]);
        i = i + 1;
    }
    assert(r@ =~= v@);
    r
}

} // verus!
