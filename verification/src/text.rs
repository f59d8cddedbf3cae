//! Searching text without regard to the case of ASCII letters.

use vstd::prelude::*;

verus! {

/// The byte with an ASCII capital letter turned to its small letter.
pub open spec fn fold(b: u8) -> u8 {
    if 65 <= b <= 90 {
        (b + 32) as u8
    } else {
        b
    }
}

/// Whether `needle` stands in `hay` at place `k`, letters folded.
pub open spec fn matches_at(hay: Seq<u8>, needle: Seq<u8>, k: int) -> bool {
    &&& 0 <= k
    &&& k + needle.len() <= hay.len()
    &&& forall|j: int| 0 <= j < needle.len() ==> fold(#[trigger] hay[k + j]) == fold(needle[j])
}

/// Whether `needle` stands somewhere in `hay`, letters folded.
pub open spec fn contains_folded(hay: Seq<u8>, needle: Seq<u8>) -> bool {
    exists|k: int| matches_at(hay, needle, k)
}

fn fold_byte(b: u8) -> (r: u8)
    ensures
        r == fold(b),
{
    if 65 <= b && b <= 90 {
        b + 32
    } else {
        b
    }
}

fn matches_here(hay: &[u8], needle: &[u8], k: usize) -> (r: bool)
    requires
        k + needle@.len() <= hay@.len(),
    ensures
        r == matches_at(hay@, needle@, k as int),
{
    let length = hay.len();
    let mut j: usize = 0;
    while j < needle.len()
        invariant
            j <= needle@.len(),
            k + needle@.len() <= hay@.len() == length,
            forall|t: int| 0 <= t < j ==> fold(#[trigger] hay@[k + t]) == fold(needle@[t]),
        decreases needle@.len() - j,
    {
        if fold_byte(hay[k + j]) != fold_byte(needle[j]) {
            assert(fold(hay@[k + j]) != fold(needle@[j as int]));
            return false;
        }
        j += 1;
    }
    true
}

/// Whether `needle` stands somewhere in `hay`, compared byte for byte with the
/// ASCII letters folded.
pub fn contains_ignore_ascii_case(hay: &[u8], needle: &[u8]) -> (r: bool)
    ensures
        r == contains_folded(hay@, needle@),
{
    if needle.len() > hay.len() {
        return false;
    }
    let last = hay.len() - needle.len();
    let mut k: usize = 0;
    loop
        invariant
            k <= last,
            last == hay@.len() - needle@.len(),
            forall|t: int| 0 <= t < k ==> !matches_at(hay@, needle@, t),
        decreases last - k,
    {
        if matches_here(hay, needle, k) {
            return true;
        }
        if k == last {
            return false;
        }
        k += 1;
    }
}

} // verus!
