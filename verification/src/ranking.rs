use vstd::prelude::*;

verus! {

/// One entry of a distance-ranked point list.
///
/// `idx` is the position of the point in the caller's storage (which the
/// caller keeps sorted nearest-to-farthest from the ranking center), and
/// `key` is an exact integer surrogate for the point's squared distance from
/// that center: keys are non-decreasing in rank order, and two keys lie
/// within the tolerance of each other exactly when the squared distances they
/// stand for do.
#[derive(Clone, Copy, PartialEq, Eq, Structural, Debug)]
pub struct RankedPoint {
    pub idx: usize,
    pub key: u64,
}

/// Two distance keys differ by less than the tolerance, so the points they
/// belong to are mutually ambiguous as rotation anchors.
pub open spec fn within_tol(a: u64, b: u64, tol: u64) -> bool {
    -(tol as int) < a - b < tol as int
}

/// The list is ranked: distance keys never decrease, so the nearest point
/// comes first and the farthest point last.
pub open spec fn keys_sorted(s: Seq<RankedPoint>) -> bool {
    forall|i: int, j: int| 0 <= i < j < s.len() ==> #[trigger] s[i].key <= #[trigger] s[j].key
}

/// Compares two distance keys against the tolerance, the exact counterpart of
/// `within_tol`.
pub fn keys_within_tol(a: u64, b: u64, tol: u64) -> (r: bool)
    ensures
        r == within_tol(a, b, tol),
{
    if a >= b {
        a - b < tol
    } else {
        b - a < tol
    }
}

/// Builds the ranked list for a point sequence from its adjacent tie
/// pattern: `ties[i]` says whether the points of ranks `i` and `i + 1` have
/// squared distances within the tolerance of each other. Rank `i` receives
/// `idx == i` and a key that repeats the previous key across a tie and steps
/// by `tol` otherwise, so that adjacent keys are within `tol` of each other
/// exactly when the squared distances they stand for are.
pub fn build_ranking(ties: &Vec<bool>, tol: u64) -> (r: Vec<RankedPoint>)
    requires
        1 <= tol,
        ties@.len() * tol <= u64::MAX,
    ensures
        r@.len() == ties@.len() + 1,
        forall|i: int| 0 <= i < r@.len() ==> #[trigger] r@[i].idx == i,
        r@[0].key == 0,
        forall|i: int|
            0 <= i < ties@.len() ==> #[trigger] r@[i + 1].key == r@[i].key + if ties@[i] {
                0int
            } else {
                tol as int
            },
        forall|i: int|
            0 <= i < ties@.len() ==> (within_tol(#[trigger] r@[i + 1].key, r@[i].key, tol)
                <==> ties@[i]),
        keys_sorted(r@),
{
    let mut r: Vec<RankedPoint> = Vec::new();
    r.push(RankedPoint { idx: 0, key: 0 });
    let mut i: usize = 0;
    while i < ties.len()
        invariant
            i <= ties@.len(),
            1 <= tol,
            ties@.len() * tol <= u64::MAX,
            r@.len() == i + 1,
            r@[0].key == 0,
            forall|j: int| 0 <= j < r@.len() ==> #[trigger] r@[j].idx == j,
            forall|j: int|
                0 <= j < i ==> #[trigger] r@[j + 1].key == r@[j].key + if ties@[j] {
                    0int
                } else {
                    tol as int
                },
            r@[i as int].key <= i * tol,
            keys_sorted(r@),
        decreases ties@.len() - i,
    {
        let prev = r[i].key;
        proof {
            assert((i + 1) * tol == i * tol + tol) by (nonlinear_arith);
            assert((i + 1) * tol <= ties@.len() * tol) by (nonlinear_arith)
                requires
                    i + 1 <= ties@.len(),
                    tol >= 1,
            ;
        }
        let key = if ties[i] {
            prev
        } else {
            prev + tol
        };
        i = i + 1;
        r.push(RankedPoint { idx: i, key });
        proof {
            assert forall|p: int, q: int| 0 <= p < q < r@.len() implies #[trigger] r@[p].key
                <= #[trigger] r@[q].key by {
                if q == r@.len() - 1 && p < q - 1 {
                    assert(r@[p].key <= r@[q - 1].key);
                }
            }
        }
    }
    proof {
        assert forall|j: int|
            0 <= j < ties@.len() implies (within_tol(#[trigger] r@[j + 1].key, r@[j].key, tol)
            <==> ties@[j]) by {
            assert(r@[j + 1].key == r@[j].key + if ties@[j] {
                0int
            } else {
                tol as int
            });
        }
    }
    r
}

} // verus!
