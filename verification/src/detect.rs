//! Completion detection: an exercise counts as done exactly when the sentinel
//! marker string (by convention `# I AM NOT DONE`) is absent from the bytes of
//! the exercise's file. Matching is an exact, case-sensitive substring check:
//! no trimming, no normalisation.

use vstd::prelude::*;

verus! {

/// The marker occurs in `s` as a contiguous substring starting at position `i`.
pub open spec fn marker_at(s: Seq<u8>, m: Seq<u8>, i: int) -> bool {
    0 <= i && i + m.len() <= s.len() && s.subrange(i, i + m.len()) == m
}

/// The marker occurs somewhere in `s` as a contiguous substring.
pub open spec fn has_marker(s: Seq<u8>, m: Seq<u8>) -> bool {
    exists|i: int| marker_at(s, m, i)
}

/// Compares the bytes of `contents` starting at `i` against the whole marker.
fn match_at(contents: &Vec<u8>, marker: &Vec<u8>, i: usize) -> (r: bool)
    requires
        i + marker@.len() <= contents@.len(),
    ensures
        r == marker_at(contents@, marker@, i as int),
{
    let n = contents.len();
    let mut j: usize = 0;
    while j < marker.len()
        invariant
            n == contents@.len(),
            i + marker@.len() <= contents@.len(),
            j <= marker@.len(),
            forall|k: int| 0 <= k < j ==> contents@[i + k] == marker@[k],
        decreases marker@.len() - j,
    {
        if contents[i + j] != marker[j] {
            proof {
                if marker_at(contents@, marker@, i as int) {
                    assert(contents@.subrange(i as int, i + marker@.len())[j as int]
                        == contents@[i + j]);
                }
            }
            return false;
        }
        j += 1;
    }
    proof {
        assert(contents@.subrange(i as int, i + marker@.len()) =~= marker@);
    }
    true
}

/// Exact, case-sensitive substring search for the sentinel marker: true iff
/// the exact marker bytes occur contiguously anywhere in `contents`.
pub fn contains_marker(contents: &Vec<u8>, marker: &Vec<u8>) -> (r: bool)
    ensures
        r == has_marker(contents@, marker@),
{
    let n = contents.len();
    let m = marker.len();
    if m > n {
        assert(forall|i: int| !marker_at(contents@, marker@, i));
        return false;
    }
    if m == 0 {
        proof {
            assert(contents@.subrange(0, 0) =~= marker@);
            assert(marker_at(contents@, marker@, 0));
        }
        return true;
    }
    let mut i: usize = 0;
    while i <= n - m
        invariant
            1 <= m <= n,
            n == contents@.len(),
            m == marker@.len(),
            i <= n - m + 1,
            forall|k: int| 0 <= k < i ==> !marker_at(contents@, marker@, k),
        decreases n - m + 1 - i,
    {
        if match_at(contents, marker, i) {
            return true;
        }
        i += 1;
    }
    assert(forall|k: int| !marker_at(contents@, marker@, k));
    false
}

/// An exercise is done exactly when the marker is absent from its file.
pub fn is_done(contents: &Vec<u8>, marker: &Vec<u8>) -> (r: bool)
    ensures
        r == !has_marker(contents@, marker@),
{
    !contains_marker(contents, marker)
}

} // verus!
