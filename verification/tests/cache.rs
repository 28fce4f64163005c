use sextant_fractal::cache::{Membership, MembershipCache};
use std::cell::Cell;

#[test]
fn new_cache_knows_nothing() {
    let cache = MembershipCache::new();
    assert_eq!(cache.lookup(500, 0, 0), None);
    assert_eq!(cache.lookup(500, u64::MAX, 1), None);
    assert_eq!(cache.lookup(0, 0, 0), None);
}

#[test]
fn record_then_lookup() {
    let mut cache = MembershipCache::new();
    cache.record(500, 3, 4, true);
    cache.record(500, 4, 3, false);
    assert_eq!(cache.lookup(500, 3, 4), Some(true));
    assert_eq!(cache.lookup(500, 4, 3), Some(false));
    assert_eq!(cache.lookup(500, 3, 3), None);
    assert_eq!(cache.lookup(500, 4, 4), None);
}

#[test]
fn record_keeps_the_result_that_is_there() {
    let mut cache = MembershipCache::new();
    cache.record(500, 1, 2, true);
    cache.record(500, 1, 2, false);
    assert_eq!(cache.lookup(500, 1, 2), Some(true));
    cache.record(500, 2, 1, false);
    cache.record(500, 2, 1, true);
    assert_eq!(cache.lookup(500, 2, 1), Some(false));
}

#[test]
fn lookup_at_another_threshold_finds_nothing() {
    let mut cache = MembershipCache::new();
    cache.record(500, 1, 2, true);
    assert_eq!(cache.lookup(501, 1, 2), None);
    assert_eq!(cache.lookup(0, 1, 2), None);
    assert_eq!(cache.lookup(500, 1, 2), Some(true));
}

#[test]
fn results_of_every_threshold_stay() {
    let mut cache = MembershipCache::new();
    cache.record(5, 1, 2, true);
    cache.record(6, 3, 4, false);
    cache.record(6, 1, 2, false);
    assert_eq!(cache.lookup(5, 1, 2), Some(true));
    assert_eq!(cache.lookup(6, 3, 4), Some(false));
    assert_eq!(cache.lookup(6, 1, 2), Some(false));
    assert_eq!(cache.lookup(5, 3, 4), None);
}

#[test]
fn nothing_is_ever_removed() {
    let mut cache = MembershipCache::new();
    let inside = |threshold: usize, x0: u64, y0: u64| (threshold as u64 + x0 * 3 + y0) % 2 == 0;
    for threshold in [500usize, 501, 450, 0, 500] {
        for x0 in 0..6u64 {
            for y0 in 0..6u64 {
                cache.membership(threshold, x0, y0, || inside(threshold, x0, y0));
                cache.record(threshold, x0, y0, !inside(threshold, x0, y0));
            }
        }
    }
    for threshold in [500usize, 501, 450, 0] {
        for x0 in 0..6u64 {
            for y0 in 0..6u64 {
                assert_eq!(cache.lookup(threshold, x0, y0), Some(inside(threshold, x0, y0)));
            }
        }
    }
    assert_eq!(cache.lookup(499, 0, 0), None);
}

#[test]
fn membership_evaluates_a_new_point_and_stores_it() {
    let mut cache = MembershipCache::new();
    let calls = Cell::new(0);
    let found = cache.membership(500, 10, 20, || {
        calls.set(calls.get() + 1);
        true
    });
    assert_eq!(found, Membership { inside: true, cached: false });
    assert_eq!(calls.get(), 1);
    assert_eq!(cache.lookup(500, 10, 20), Some(true));
}

#[test]
fn membership_reuses_a_stored_point() {
    let mut cache = MembershipCache::new();
    cache.record(500, 10, 20, false);
    let calls = Cell::new(0);
    let found = cache.membership(500, 10, 20, || {
        calls.set(calls.get() + 1);
        true
    });
    assert_eq!(found, Membership { inside: false, cached: true });
    assert_eq!(calls.get(), 0);
    assert_eq!(cache.lookup(500, 10, 20), Some(false));
}

#[test]
fn second_membership_of_a_point_is_a_hit() {
    let mut cache = MembershipCache::new();
    let first = cache.membership(9, 5, 6, || false);
    assert_eq!((first.inside, first.cached), (false, false));
    let second = cache.membership(9, 5, 6, || true);
    assert_eq!((second.inside, second.cached), (false, true));
    let third = cache.membership(9, 6, 5, || true);
    assert_eq!((third.inside, third.cached), (true, false));
    let fourth = cache.membership(9, 6, 5, || false);
    assert_eq!((fourth.inside, fourth.cached), (true, true));
}

#[test]
fn membership_after_a_threshold_change_evaluates_again() {
    let mut cache = MembershipCache::new();
    let at_one = cache.membership(1, 5, 6, || true);
    assert_eq!(at_one, Membership { inside: true, cached: false });
    // The same point at a higher threshold: the stored result does not
    // answer for it.
    let at_fifty = cache.membership(50, 5, 6, || false);
    assert_eq!(at_fifty, Membership { inside: false, cached: false });
    let again = cache.membership(50, 5, 6, || true);
    assert_eq!(again, Membership { inside: false, cached: true });
    // Back at the first threshold the first result is still there.
    let back = cache.membership(1, 5, 6, || false);
    assert_eq!(back, Membership { inside: true, cached: true });
    assert_eq!(cache.lookup(1, 5, 6), Some(true));
    assert_eq!(cache.lookup(50, 5, 6), Some(false));
}

#[test]
fn cached_and_direct_evaluation_agree() {
    // A stand-in for the escape test: any function of the threshold and the
    // two bit patterns.
    let member =
        |threshold: usize, x0: u64, y0: u64| (x0 ^ y0).count_ones() as usize % 3 < threshold;
    let mut cache = MembershipCache::new();
    let mut seen = Vec::new();
    for threshold in [1usize, 1, 2, 2, 1, 3] {
        let fresh = !seen.contains(&threshold);
        seen.push(threshold);
        for round in 0..2 {
            for x0 in 0..8u64 {
                for y0 in 0..8u64 {
                    let found = cache.membership(threshold, x0, y0, || member(threshold, x0, y0));
                    assert_eq!(found.inside, member(threshold, x0, y0));
                    assert_eq!(found.cached, round > 0 || !fresh);
                }
            }
        }
    }
}

#[test]
fn points_are_keyed_by_their_bits() {
    let mut cache = MembershipCache::new();
    let zero = 0.0f64.to_bits();
    let minus_zero = (-0.0f64).to_bits();
    cache.record(500, zero, zero, true);
    assert_eq!(cache.lookup(500, zero, zero), Some(true));
    assert_eq!(cache.lookup(500, minus_zero, zero), None);
    assert_eq!(cache.lookup(500, zero, minus_zero), None);
    let nan = f64::NAN.to_bits();
    cache.record(500, nan, nan, false);
    assert_eq!(cache.lookup(500, nan, nan), Some(false));
    let near = (0.1f64 + 0.2f64).to_bits();
    let exact = 0.3f64.to_bits();
    cache.record(500, near, zero, true);
    assert_eq!(cache.lookup(500, exact, zero), None);
}
