//! The surface ring on its own: rotation, handoff, and the permutation
//! invariant, exercised through concrete call sequences.

use neovideo::ring::SurfaceRing;

fn assert_roles_are_a_permutation(ring: &SurfaceRing) {
    let r = ring.render_index();
    let p = ring.pending_index();
    let d = ring.display_index();
    assert!(r < 3 && p < 3 && d < 3);
    assert!(r != p && p != d && r != d);
}

#[test]
fn fresh_ring_roles() {
    let ring = SurfaceRing::new();
    assert_eq!(ring.render_index(), 0);
    assert_eq!(ring.pending_index(), 1);
    assert_eq!(ring.display_index(), 2);
    assert!(!ring.has_pending_frame());
    assert_roles_are_a_permutation(&ring);
}

#[test]
fn acquire_before_any_commit_is_no_frame_yet() {
    let mut ring = SurfaceRing::new();
    let changed = ring.consumer_acquire();
    assert!(!changed);
    assert_eq!(ring.display_index(), 2);
    assert_roles_are_a_permutation(&ring);
}

#[test]
fn commit_raises_handoff_and_rotates() {
    let mut ring = SurfaceRing::new();
    ring.producer_commit();
    assert!(ring.has_pending_frame());
    // The just-filled surface 0 moved into `pending`; the producer writes 1.
    assert_eq!(ring.pending_index(), 0);
    assert_eq!(ring.render_index(), 1);
    assert_eq!(ring.display_index(), 2);
    assert_roles_are_a_permutation(&ring);
}

#[test]
fn acquire_after_two_commits_yields_the_last() {
    let mut ring = SurfaceRing::new();
    // First commit fills surface 0, second fills surface 1.
    ring.producer_commit();
    ring.producer_commit();
    let changed = ring.consumer_acquire();
    assert!(changed);
    // The consumer sees surface 1, written by the last commit; surface 0's
    // frame was dropped, not queued.
    assert_eq!(ring.display_index(), 1);
    assert_roles_are_a_permutation(&ring);
}

#[test]
fn acquire_twice_reports_a_change_once() {
    let mut ring = SurfaceRing::new();
    ring.producer_commit();
    let first = ring.consumer_acquire();
    let display_after_first = ring.display_index();
    let second = ring.consumer_acquire();
    assert!(first);
    assert!(!second);
    assert_eq!(ring.display_index(), display_after_first);
    assert_roles_are_a_permutation(&ring);
}

#[test]
fn any_mixed_sequence_keeps_the_permutation() {
    let mut ring = SurfaceRing::new();
    // true = producer commit, false = consumer acquire.
    let ops = [
        true, true, false, false, true, false, true, true, true, false, false, true, false,
    ];
    for &commit in ops.iter() {
        if commit {
            ring.producer_commit();
        } else {
            ring.consumer_acquire();
        }
        assert_roles_are_a_permutation(&ring);
    }
}
