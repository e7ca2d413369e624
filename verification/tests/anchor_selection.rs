use rigid_align::anchor::find_nonconflicting_point;
use rigid_align::matcher::pop_anchor_pair;
use rigid_align::ranking::{build_ranking, keys_within_tol, RankedPoint};

fn rp(idx: usize, key: u64) -> RankedPoint {
    RankedPoint { idx, key }
}

#[test]
fn keys_within_tol_is_strict() {
    assert!(keys_within_tol(5, 5, 1));
    assert!(!keys_within_tol(5, 6, 1));
    assert!(!keys_within_tol(6, 5, 1));
    assert!(keys_within_tol(10, 13, 4));
    assert!(!keys_within_tol(10, 14, 4));
}

#[test]
fn build_ranking_assigns_ranks_and_keys() {
    let ties = vec![true, false, true];
    let r = build_ranking(&ties, 1);
    assert_eq!(r.len(), 4);
    assert_eq!(r[0], rp(0, 0));
    assert_eq!(r[1], rp(1, 0));
    assert_eq!(r[2], rp(2, 1));
    assert_eq!(r[3], rp(3, 1));
}

#[test]
fn build_ranking_single_point() {
    let ties: Vec<bool> = Vec::new();
    let r = build_ranking(&ties, 1);
    assert_eq!(r, vec![rp(0, 0)]);
}

#[test]
fn build_ranking_steps_by_tolerance() {
    let ties = vec![false, false];
    let r = build_ranking(&ties, 7);
    assert_eq!(r, vec![rp(0, 0), rp(1, 7), rp(2, 14)]);
}

#[test]
fn clear_extreme_point_is_selected() {
    let mut points = vec![rp(0, 0), rp(1, 5), rp(2, 9)];
    let r = find_nonconflicting_point(&mut points, 1);
    assert_eq!(r, Some(rp(2, 9)));
    assert_eq!(points, vec![rp(0, 0), rp(1, 5)]);
}

#[test]
fn tie_group_promotes_last_member() {
    // The two farthest points tie; the candidate promoted from the group is
    // accepted once the next remaining point is clear of it.
    let mut points = vec![rp(0, 0), rp(1, 5), rp(2, 5)];
    let r = find_nonconflicting_point(&mut points, 1);
    assert_eq!(r, Some(rp(1, 5)));
    assert_eq!(points, vec![rp(0, 0)]);
}

#[test]
fn fully_tied_list_is_exhausted() {
    let mut points = vec![rp(0, 3), rp(1, 3), rp(2, 3), rp(3, 3)];
    let r = find_nonconflicting_point(&mut points, 1);
    assert_eq!(r, None);
    assert!(points.is_empty());
}

#[test]
fn single_point_is_exhausted() {
    // A lone candidate has no remaining point to be checked against.
    let mut points = vec![rp(0, 2)];
    let r = find_nonconflicting_point(&mut points, 1);
    assert_eq!(r, None);
    assert!(points.is_empty());
}

#[test]
fn empty_list_is_exhausted() {
    let mut points: Vec<RankedPoint> = Vec::new();
    let r = find_nonconflicting_point(&mut points, 1);
    assert_eq!(r, None);
    assert!(points.is_empty());
}

#[test]
fn only_off_symmetry_point_is_eligible() {
    // Four points of a symmetric ring tie each other; one deliberately added
    // off-symmetry point farther out is the only anchor ever selected, and the
    // ring is consumed whole without yielding one of its members.
    let ties = vec![true, true, true, false];
    let mut points = build_ranking(&ties, 1);
    let first = find_nonconflicting_point(&mut points, 1);
    assert_eq!(first, Some(rp(4, 1)));
    let second = find_nonconflicting_point(&mut points, 1);
    assert_eq!(second, None);
    assert!(points.is_empty());
}

#[test]
fn anchor_pair_is_popped_from_both_lists() {
    let mut model = vec![rp(0, 0), rp(1, 4), rp(2, 9)];
    let mut reference = vec![rp(0, 0), rp(1, 4), rp(2, 9)];
    let r = pop_anchor_pair(&mut model, &mut reference, 1);
    assert_eq!(r, Some((rp(2, 9), rp(2, 9))));
    assert_eq!(model, vec![rp(0, 0), rp(1, 4)]);
    assert_eq!(reference, vec![rp(0, 0), rp(1, 4)]);
}

#[test]
fn exhausted_model_list_gives_no_pair() {
    let mut model = vec![rp(0, 3), rp(1, 3)];
    let mut reference = vec![rp(0, 0), rp(1, 4)];
    let r = pop_anchor_pair(&mut model, &mut reference, 1);
    assert_eq!(r, None);
    // The reference list is only consulted after a model anchor is found.
    assert_eq!(reference, vec![rp(0, 0), rp(1, 4)]);
}

#[test]
fn two_point_lists_cannot_give_two_pairs() {
    let mut model = vec![rp(0, 0), rp(1, 4)];
    let mut reference = vec![rp(0, 0), rp(1, 4)];
    let first = pop_anchor_pair(&mut model, &mut reference, 1);
    assert_eq!(first, Some((rp(1, 4), rp(1, 4))));
    let second = pop_anchor_pair(&mut model, &mut reference, 1);
    assert_eq!(second, None);
}

#[test]
fn selection_rerun_is_deterministic() {
    let original = vec![rp(0, 0), rp(1, 2), rp(2, 2), rp(3, 7), rp(4, 9)];
    let mut first_run = original.clone();
    let mut second_run = original.clone();
    let mut picks_first = Vec::new();
    let mut picks_second = Vec::new();
    loop {
        match find_nonconflicting_point(&mut first_run, 1) {
            Some(p) => picks_first.push(p),
            None => break,
        }
    }
    loop {
        match find_nonconflicting_point(&mut second_run, 1) {
            Some(p) => picks_second.push(p),
            None => break,
        }
    }
    assert_eq!(picks_first, picks_second);
    assert_eq!(first_run, second_run);
}
