//! The raw byte scanner: verified first/last occurrence search over byte
//! slices, and the recovery rule that reads a `chara` payload out of a
//! nonstandard card layout (the chunk written last, just before `IEND`).

use vstd::prelude::*;
use vstd::slice::slice_index_get;
use vstd::slice::slice_subrange;

verus! {

/// Whether `pat` occurs in `b` at position `i`.
pub open spec fn matches_at(b: Seq<u8>, pat: Seq<u8>, i: int) -> bool {
    0 <= i && i + pat.len() <= b.len() && b.subrange(i, i + pat.len()) == pat
}

/// The first occurrence of `pat` in `b` at or after position `i`.
pub open spec fn first_match_from(b: Seq<u8>, pat: Seq<u8>, i: int) -> Option<int>
    decreases b.len() - i,
{
    if pat.len() == 0 || i < 0 || i + pat.len() > b.len() {
        None
    } else if matches_at(b, pat, i) {
        Some(i)
    } else {
        first_match_from(b, pat, i + 1)
    }
}

/// The first occurrence of `pat` in `b`.
pub open spec fn first_match(b: Seq<u8>, pat: Seq<u8>) -> Option<int> {
    first_match_from(b, pat, 0)
}

/// The last occurrence of `pat` in `b` at or before position `i`.
pub open spec fn last_match_before(b: Seq<u8>, pat: Seq<u8>, i: int) -> Option<int>
    decreases i + 1,
{
    if i < 0 {
        None
    } else if matches_at(b, pat, i) {
        Some(i)
    } else {
        last_match_before(b, pat, i - 1)
    }
}

/// The last occurrence of `pat` in `b`.
pub open spec fn last_match(b: Seq<u8>, pat: Seq<u8>) -> Option<int> {
    last_match_before(b, pat, b.len() - pat.len())
}

/// A found first occurrence is an occurrence.
pub proof fn lemma_first_match_is_match(b: Seq<u8>, pat: Seq<u8>, i: int)
    requires
        first_match_from(b, pat, i) is Some,
    ensures
        matches_at(b, pat, first_match_from(b, pat, i).unwrap()),
    decreases b.len() - i,
{
    if pat.len() == 0 || i < 0 || i + pat.len() > b.len() {
    } else if matches_at(b, pat, i) {
    } else {
        lemma_first_match_is_match(b, pat, i + 1);
    }
}

/// A found last occurrence is an occurrence.
pub proof fn lemma_last_match_is_match(b: Seq<u8>, pat: Seq<u8>, i: int)
    requires
        last_match_before(b, pat, i) is Some,
    ensures
        matches_at(b, pat, last_match_before(b, pat, i).unwrap()),
    decreases i + 1,
{
    if i < 0 {
    } else if matches_at(b, pat, i) {
    } else {
        lemma_last_match_is_match(b, pat, i - 1);
    }
}

/// Whether `pat` occurs in `b` at position `i`, by comparing bytes.
fn slice_eq_at(b: &[u8], pat: &[u8], i: usize) -> (r: bool)
    requires
        i + pat@.len() <= b@.len(),
    ensures
        r == matches_at(b@, pat@, i as int),
{
    let n = b.len();
    let m = pat.len();
    let mut j: usize = 0;
    while j < m
        invariant
            0 <= j <= m,
            m == pat@.len(),
            n == b@.len(),
            i + m <= n,
            forall|k: int| 0 <= k < j ==> b@[i + k] == pat@[k],
        decreases m - j,
    {
        if *slice_index_get(b, i + j) != *slice_index_get(pat, j) {
            proof {
                assert(b@.subrange(i as int, i + m)[j as int] == b@[i + j]);
            }
            return false;
        }
        j = j + 1;
    }
    proof {
        assert(b@.subrange(i as int, i + m) =~= pat@);
    }
    true
}

/// Finds the first occurrence of `pat` in `b`.
pub fn find_first(b: &[u8], pat: &[u8]) -> (r: Option<usize>)
    requires
        pat@.len() >= 1,
    ensures
        (match r {
            Some(i) => first_match(b@, pat@) == Some(i as int),
            None => first_match(b@, pat@) is None,
        }),
{
    let n = b.len();
    let m = pat.len();
    if m > n {
        return None;
    }
    let mut i: usize = 0;
    while i <= n - m
        invariant
            0 <= i,
            i <= n - m + 1,
            m <= n,
            n == b@.len(),
            m == pat@.len(),
            m >= 1,
            first_match(b@, pat@) == first_match_from(b@, pat@, i as int),
        decreases n - i,
    {
        if slice_eq_at(b, pat, i) {
            return Some(i);
        }
        i = i + 1;
    }
    None
}

/// Finds the last occurrence of `pat` in `b`.
pub fn find_last(b: &[u8], pat: &[u8]) -> (r: Option<usize>)
    requires
        pat@.len() >= 1,
    ensures
        (match r {
            Some(i) => last_match(b@, pat@) == Some(i as int),
            None => last_match(b@, pat@) is None,
        }),
{
    let n = b.len();
    let m = pat.len();
    if m > n {
        return None;
    }
    let mut i: usize = n - m + 1;
    while i > 0
        invariant
            0 <= i <= n - m + 1,
            n == b@.len(),
            m == pat@.len(),
            m >= 1,
            last_match(b@, pat@) == last_match_before(b@, pat@, i as int - 1),
        decreases i,
    {
        let j = i - 1;
        if slice_eq_at(b, pat, j) {
            return Some(j);
        }
        i = j;
    }
    None
}

/// The nine bytes of the marker `tEXtchara`: the tEXt chunk type directly
/// followed by the keyword.
pub open spec fn chara_marker() -> Seq<u8> {
    seq![116u8, 69u8, 88u8, 116u8, 99u8, 104u8, 97u8, 114u8, 97u8]
}

/// The four bytes of the marker `IEND`.
pub open spec fn iend_marker() -> Seq<u8> {
    seq![73u8, 69u8, 78u8, 68u8]
}

fn chara_marker_bytes() -> (r: Vec<u8>)
    ensures
        r@ == chara_marker(),
{
    let mut v: Vec<u8> = Vec::new();
    v.push(116);
    v.push(69);
    v.push(88);
    v.push(116);
    v.push(99);
    v.push(104);
    v.push(97);
    v.push(114);
    v.push(97);
    proof {
        assert(v@ =~= chara_marker());
    }
    v
}

fn iend_marker_bytes() -> (r: Vec<u8>)
    ensures
        r@ == iend_marker(),
{
    let mut v: Vec<u8> = Vec::new();
    v.push(73);
    v.push(69);
    v.push(78);
    v.push(68);
    proof {
        assert(v@ =~= iend_marker());
    }
    v
}

/// The raw-scan payload of a byte stream: the bytes strictly between the end
/// of the `tEXtchara` marker plus its null separator and the point 8 bytes
/// before the last `IEND` marker (skipping the chunk's CRC and the `IEND`
/// length field). `None` when either marker is absent or the range is empty
/// or inverted.
pub open spec fn scan_payload(b: Seq<u8>) -> Option<Seq<u8>> {
    match (first_match(b, chara_marker()), last_match(b, iend_marker())) {
        (Some(s), Some(e)) => if s + 10 <= e - 8 {
            Some(b.subrange(s + 10, e - 8))
        } else {
            None
        },
        _ => None,
    }
}

/// Scans `buffer` for a trailing `chara` payload, the recovery path for
/// cards whose chunk layout the structured decoder does not surface.
pub fn scan_chara_payload(buffer: &[u8]) -> (r: Option<&[u8]>)
    ensures
        (match scan_payload(buffer@) {
            Some(p) => r matches Some(s) && s@ == p,
            None => r is None,
        }),
{
    let chara = chara_marker_bytes();
    let iend = iend_marker_bytes();
    let start = match find_first(buffer, chara.as_slice()) {
        Some(i) => i,
        None => {
            return None;
        },
    };
    let end = match find_last(buffer, iend.as_slice()) {
        Some(i) => i,
        None => {
            return None;
        },
    };
    if end >= 18 && start <= end - 18 {
        proof {
            lemma_first_match_is_match(buffer@, chara_marker(), 0);
            lemma_last_match_is_match(buffer@, iend_marker(), buffer@.len() - 4);
        }
        Some(slice_subrange(buffer, start + 10, end - 8))
    } else {
        None
    }
}

} // verus!
