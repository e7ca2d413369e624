use vstd::prelude::*;

use crate::anchor::{
    find_nonconflicting_point, lemma_selection_consumes, lemma_short_list_exhausted, selection,
};
use crate::ranking::{keys_sorted, within_tol, RankedPoint};

verus! {

/// One round of anchor-pair selection for the planar-rotation matcher: an
/// anchor is pulled from the model list first, and only if that succeeds is
/// one pulled from the reference list; the pair exists only when both rounds
/// yield a point. The component lists record what each round leaves behind.
pub open spec fn pair_selection(
    model: Seq<RankedPoint>,
    reference: Seq<RankedPoint>,
    tol: u64,
) -> (Option<(RankedPoint, RankedPoint)>, Seq<RankedPoint>, Seq<RankedPoint>) {
    match selection(model, tol) {
        (None, model_rest) => (None, model_rest, reference),
        (Some(a), model_rest) => match selection(reference, tol) {
            (None, reference_rest) => (None, model_rest, reference_rest),
            (Some(b), reference_rest) => (Some((a, b)), model_rest, reference_rest),
        },
    }
}

/// Pops one non-conflicting anchor from each of the two ranked lists, model
/// first; `None` means one of the lists was exhausted before an unambiguous
/// candidate appeared, the matcher's undetermined outcome. Both lists are
/// consumed in place, ready for the next round of the same matching call.
pub fn pop_anchor_pair(
    model: &mut Vec<RankedPoint>,
    reference: &mut Vec<RankedPoint>,
    tol: u64,
) -> (r: Option<(RankedPoint, RankedPoint)>)
    requires
        keys_sorted(old(model)@),
        keys_sorted(old(reference)@),
    ensures
        r == pair_selection(old(model)@, old(reference)@, tol).0,
        final(model)@ == pair_selection(old(model)@, old(reference)@, tol).1,
        final(reference)@ == pair_selection(old(model)@, old(reference)@, tol).2,
        keys_sorted(final(model)@),
        keys_sorted(final(reference)@),
        r matches Some(pair) ==> {
            &&& old(model)@.contains(pair.0)
            &&& old(reference)@.contains(pair.1)
            &&& forall|i: int|
                0 <= i < final(model)@.len() ==> !within_tol(
                    pair.0.key,
                    #[trigger] final(model)@[i].key,
                    tol,
                )
            &&& forall|i: int|
                0 <= i < final(reference)@.len() ==> !within_tol(
                    pair.1.key,
                    #[trigger] final(reference)@[i].key,
                    tol,
                )
        },
{
    let first = find_nonconflicting_point(model, tol);
    match first {
        None => None,
        Some(a) => {
            let second = find_nonconflicting_point(reference, tol);
            match second {
                None => None,
                Some(b) => Some((a, b)),
            }
        },
    }
}

/// Anchor-pair selection is a pure function of the two key lists and the
/// tolerance: matching the same ranked lists again can only retrace the very
/// same anchors, so repeated runs of an alignment agree with each other.
pub proof fn lemma_pair_selection_deterministic(
    model_a: Seq<RankedPoint>,
    reference_a: Seq<RankedPoint>,
    model_b: Seq<RankedPoint>,
    reference_b: Seq<RankedPoint>,
    tol: u64,
)
    requires
        model_a == model_b,
        reference_a == reference_b,
    ensures
        pair_selection(model_a, reference_a, tol) == pair_selection(model_b, reference_b, tol),
{
}

/// When the two ranked lists agree entirely — as they do when the reference
/// set is a rigid copy of the model set, whose ranked distances then match
/// rank for rank — every anchor pair the matcher draws is one point paired
/// with its own counterpart of the same rank.
pub proof fn lemma_matched_lists_pair_same_rank(
    model: Seq<RankedPoint>,
    reference: Seq<RankedPoint>,
    tol: u64,
)
    requires
        model == reference,
    ensures
        pair_selection(model, reference, tol).0 matches Some(pair) ==> pair.0 == pair.1
            && pair_selection(model, reference, tol).1 == pair_selection(model, reference, tol).2,
{
}

/// A group of at most two points cannot support a rotation estimate: after
/// the first anchor pair is drawn — whether or not that much succeeds — the
/// model list is too short for a second pair, so the matcher necessarily
/// reports its undetermined outcome.
pub proof fn lemma_two_points_undetermined(
    model: Seq<RankedPoint>,
    reference: Seq<RankedPoint>,
    tol: u64,
)
    requires
        model.len() <= 2,
    ensures
        ({
            let first = pair_selection(model, reference, tol);
            pair_selection(first.1, first.2, tol).0 is None
        }),
{
    let first = pair_selection(model, reference, tol);
    lemma_selection_consumes(model, tol);
    assert(first.1 == selection(model, tol).1);
    lemma_short_list_exhausted(first.1, tol);
}

} // verus!
