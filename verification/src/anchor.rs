use vstd::prelude::*;

use crate::ranking::{keys_sorted, keys_within_tol, within_tol, RankedPoint};

verus! {

/// What one anchor-selection round yields once `cand` has been pulled off the
/// far end of the remaining list `s`: while the key of the next most extreme
/// remaining point lies within the tolerance of the candidate's, the
/// candidate is discarded and that point promoted in its place; a candidate
/// clear of the next point is accepted; a list that runs out first yields
/// nothing.
pub open spec fn selection_from(s: Seq<RankedPoint>, cand: RankedPoint, tol: u64) -> (Option<
    RankedPoint,
>, Seq<RankedPoint>)
    decreases s.len(),
{
    if s.len() == 0 {
        (None, s)
    } else if within_tol(cand.key, s.last().key, tol) {
        selection_from(s.drop_last(), s.last(), tol)
    } else {
        (Some(cand), s)
    }
}

/// The result of one anchor-selection round on the ranked list `s`: the
/// accepted anchor, if any, and the list that is left for the next round.
pub open spec fn selection(s: Seq<RankedPoint>, tol: u64) -> (Option<RankedPoint>, Seq<
    RankedPoint,
>) {
    if s.len() == 0 {
        (None, s)
    } else {
        selection_from(s.drop_last(), s.last(), tol)
    }
}

/// Pulls one non-conflicting anchor from the far end of a ranked list.
///
/// Starting from the farthest point as candidate, every point whose key ties
/// the candidate's within the tolerance displaces it, so whole ambiguous
/// groups are consumed; the survivor is returned only when the next remaining
/// point is clear of it. The list is mutated in place and handed on, partly
/// consumed, to later calls of the same alignment.
#[verifier::loop_isolation(false)]
pub fn find_nonconflicting_point(points: &mut Vec<RankedPoint>, tol: u64) -> (r: Option<
    RankedPoint,
>)
    requires
        keys_sorted(old(points)@),
    ensures
        r == selection(old(points)@, tol).0,
        final(points)@ == selection(old(points)@, tol).1,
        keys_sorted(final(points)@),
        r is Some <==> final(points)@.len() > 0,
        final(points)@.len() < old(points)@.len() || old(points)@.len() == 0,
        r matches Some(a) ==> old(points)@.contains(a) && forall|i: int|
            0 <= i < final(points)@.len() ==> !within_tol(
                a.key,
                #[trigger] final(points)@[i].key,
                tol,
            ),
{
    let popped = points.pop();
    let mut out = match popped {
        Some(p) => p,
        None => {
            return None;
        },
    };
    proof {
        assert(points@ =~= old(points)@.drop_last());
        assert(old(points)@.contains(out)) by {
            assert(old(points)@[old(points)@.len() - 1] == out);
        }
    }
    loop
        invariant
            keys_sorted(points@),
            points@.len() < old(points)@.len(),
            points@ == old(points)@.subrange(0, points@.len() as int),
            old(points)@.contains(out),
            points@.len() > 0 ==> points@.last().key <= out.key,
            selection_from(points@, out, tol) == selection(old(points)@, tol),
        decreases points@.len(),
    {
        if points.len() == 0 {
            return None;
        }
        let last_key = points[points.len() - 1].key;
        if keys_within_tol(out.key, last_key, tol) {
            out = points.pop().unwrap();
            proof {
                assert(points@ =~= old(points)@.subrange(0, points@.len() as int));
                assert(old(points)@.contains(out)) by {
                    assert(old(points)@[points@.len() as int] == out);
                }
            }
        } else {
            proof {
                assert forall|i: int| 0 <= i < points@.len() implies !within_tol(
                    out.key,
                    #[trigger] points@[i].key,
                    tol,
                ) by {
                    assert(points@[i].key <= points@[points@.len() - 1].key);
                }
            }
            return Some(out);
        }
    }
}

/// A farthest point that is clear of the second-farthest is always the anchor
/// selected, and no other point of the list ties it within the tolerance: an
/// unambiguous extreme point is never mistaken for a member of a tie group.
pub proof fn lemma_clear_extreme_selected(s: Seq<RankedPoint>, tol: u64)
    requires
        keys_sorted(s),
        s.len() >= 2,
        !within_tol(s.last().key, s[s.len() - 2].key, tol),
    ensures
        selection(s, tol).0 == Some(s.last()),
        selection(s, tol).1 == s.drop_last(),
        forall|i: int| 0 <= i < s.len() - 1 ==> !within_tol(s.last().key, #[trigger] s[i].key, tol),
{
    assert(s.drop_last().last() == s[s.len() - 2]);
    assert forall|i: int| 0 <= i < s.len() - 1 implies !within_tol(
        s.last().key,
        #[trigger] s[i].key,
        tol,
    ) by {
        assert(s[i].key <= s[s.len() - 2].key);
        assert(s[s.len() - 2].key <= s.last().key);
    }
}

/// A ranked list that is one unbroken tie group — every point's key within
/// the tolerance of its neighbour's — yields no anchor at all: the whole
/// group is consumed as ambiguous and selection reports exhaustion.
pub proof fn lemma_all_tied_exhausted(s: Seq<RankedPoint>, tol: u64)
    requires
        keys_sorted(s),
        forall|i: int| 0 <= i < s.len() - 1 ==> within_tol(#[trigger] s[i].key, s[i + 1].key, tol),
    ensures
        selection(s, tol).0 is None,
        selection(s, tol).1.len() == 0,
    decreases s.len(),
{
    if s.len() <= 1 {
    } else {
        let t = s.drop_last();
        assert(within_tol(s[s.len() - 2].key, s[s.len() - 1].key, tol));
        assert forall|i: int| 0 <= i < t.len() - 1 implies within_tol(
            #[trigger] t[i].key,
            t[i + 1].key,
            tol,
        ) by {
            assert(within_tol(s[i].key, s[i + 1].key, tol));
        }
        lemma_all_tied_exhausted(t, tol);
        assert(selection(s, tol) == selection_from(t.drop_last(), t.last(), tol));
    }
}

/// A ranked list with fewer than two points never yields an anchor: the lone
/// candidate, if any, has no remaining point to be compared against, so the
/// round ends exhausted with the list fully consumed.
pub proof fn lemma_short_list_exhausted(s: Seq<RankedPoint>, tol: u64)
    requires
        s.len() <= 1,
    ensures
        selection(s, tol).0 is None,
        selection(s, tol).1.len() == 0,
{
}

/// Each selection round consumes at least one point of a nonempty list.
pub proof fn lemma_selection_consumes(s: Seq<RankedPoint>, tol: u64)
    ensures
        s.len() > 0 ==> selection(s, tol).1.len() < s.len(),
        s.len() == 0 ==> selection(s, tol).1.len() == 0,
{
    if s.len() > 0 {
        lemma_selection_from_no_growth(s.drop_last(), s.last(), tol);
    }
}

proof fn lemma_selection_from_no_growth(s: Seq<RankedPoint>, cand: RankedPoint, tol: u64)
    ensures
        selection_from(s, cand, tol).1.len() <= s.len(),
    decreases s.len(),
{
    if s.len() > 0 && within_tol(cand.key, s.last().key, tol) {
        lemma_selection_from_no_growth(s.drop_last(), s.last(), tol);
    }
}

} // verus!
