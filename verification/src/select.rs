//! Case-insensitive substring selection over a list of names: picks the
//! first platform or device whose name contains a given substring,
//! ignoring ASCII case.

use vstd::prelude::*;

verus! {

/// Lowers an ASCII uppercase letter; leaves every other byte unchanged.
pub open spec fn lower_byte(b: u8) -> u8 {
    if 65 <= b <= 90 {
        (b + 32) as u8
    } else {
        b
    }
}

/// Byte-wise ASCII lowering of a byte string.
pub open spec fn lower_bytes(s: Seq<u8>) -> Seq<u8> {
    s.map_values(|b: u8| lower_byte(b))
}

/// The pattern occurs in the haystack starting at position `i`.
pub open spec fn matches_at(hay: Seq<u8>, pat: Seq<u8>, i: int) -> bool {
    forall|j: int| 0 <= j < pat.len() ==> hay[i + j] == #[trigger] pat[j]
}

/// The pattern occurs somewhere in the haystack.  An empty pattern occurs
/// in every haystack.
pub open spec fn contains_seq(hay: Seq<u8>, pat: Seq<u8>) -> bool {
    exists|i: int| 0 <= i && i + pat.len() <= hay.len() && #[trigger] matches_at(hay, pat, i)
}

/// The name contains the pattern, ignoring ASCII case on both sides.
pub open spec fn name_matches(name: Seq<u8>, pat: Seq<u8>) -> bool {
    contains_seq(lower_bytes(name), lower_bytes(pat))
}

/// ASCII-lowers one byte.
fn lower_u8(b: u8) -> (r: u8)
    ensures
        r == lower_byte(b),
{
    if 65 <= b && b <= 90 {
        b + 32
    } else {
        b
    }
}

/// Whether the pattern occurs at position `i` of the haystack, ignoring
/// ASCII case.
#[verifier::loop_isolation(false)]
fn matches_at_ci(hay: &Vec<u8>, pat: &Vec<u8>, i: usize) -> (r: bool)
    requires
        i + pat@.len() <= hay@.len(),
    ensures
        r == matches_at(lower_bytes(hay@), lower_bytes(pat@), i as int),
{
    // pins hay's length as a machine size, so that `i + j` below fits
    let _hay_len: usize = hay.len();
    let mut j: usize = 0;
    while j < pat.len()
        invariant
            j <= pat@.len(),
            forall|q: int|
                0 <= q < j ==> lower_bytes(hay@)[i + q] == #[trigger] lower_bytes(pat@)[q],
        decreases pat@.len() - j,
    {
        if lower_u8(hay[i + j]) != lower_u8(pat[j]) {
            assert(lower_bytes(hay@)[i + j as int] != lower_bytes(pat@)[j as int]);
            return false;
        }
        j = j + 1;
    }
    true
}

/// Whether the haystack contains the pattern, ignoring ASCII case on both
/// sides.  An empty pattern is contained in every haystack.
#[verifier::loop_isolation(false)]
pub fn contains_substr_ci(hay: &Vec<u8>, pat: &Vec<u8>) -> (r: bool)
    ensures
        r == name_matches(hay@, pat@),
{
    if pat.len() == 0 {
        assert(matches_at(lower_bytes(hay@), lower_bytes(pat@), 0));
        return true;
    }
    if pat.len() > hay.len() {
        assert(!contains_seq(lower_bytes(hay@), lower_bytes(pat@)));
        return false;
    }
    let last: usize = hay.len() - pat.len();
    let mut i: usize = 0;
    while i <= last
        invariant
            i <= last + 1,
            last + pat@.len() == hay@.len(),
            forall|q: int| 0 <= q < i ==> !matches_at(lower_bytes(hay@), lower_bytes(pat@), q),
        decreases last - i + 1,
    {
        if matches_at_ci(hay, pat, i) {
            assert(contains_seq(lower_bytes(hay@), lower_bytes(pat@)));
            return true;
        }
        i = i + 1;
    }
    assert(!contains_seq(lower_bytes(hay@), lower_bytes(pat@)));
    false
}

/// Finds the first name that contains the pattern, ignoring ASCII case,
/// and returns its index; `None` when no name does.
pub fn find_name_with_substr(names: &Vec<Vec<u8>>, pat: &Vec<u8>) -> (r: Option<usize>)
    ensures
        match r {
            Some(i) => {
                &&& i < names@.len()
                &&& name_matches(names@[i as int]@, pat@)
                &&& forall|j: int| 0 <= j < i ==> !name_matches(#[trigger] names@[j]@, pat@)
            },
            None => forall|j: int| 0 <= j < names@.len() ==> !name_matches(#[trigger] names@[j]@, pat@),
        },
{
    let mut i: usize = 0;
    while i < names.len()
        invariant
            i <= names@.len(),
            forall|j: int| 0 <= j < i ==> !name_matches(#[trigger] names@[j]@, pat@),
        decreases names@.len() - i,
    {
        if contains_substr_ci(&names[i], pat) {
            return Some(i);
        }
        i = i + 1;
    }
    None
}

} // verus!
