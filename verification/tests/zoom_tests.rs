use plex_shell::error::ShellError;
use plex_shell::zoom::{adjust_zoom, load_zoom_level, zoom_apply_outcome, StoredZoom, ZoomLevel};

#[test]
fn missing_value_defaults_to_full_zoom() {
    let z = load_zoom_level(&StoredZoom::Missing);
    assert_eq!(z, ZoomLevel { percent: 100 });
}

#[test]
fn invalid_value_defaults_to_full_zoom() {
    let z = load_zoom_level(&StoredZoom::Invalid);
    assert_eq!(z, ZoomLevel { percent: 100 });
}

#[test]
fn stored_value_inside_domain_is_kept() {
    assert_eq!(load_zoom_level(&StoredZoom::Stored(125)).percent, 125);
    assert_eq!(load_zoom_level(&StoredZoom::Stored(50)).percent, 50);
    assert_eq!(load_zoom_level(&StoredZoom::Stored(200)).percent, 200);
}

#[test]
fn stored_value_outside_domain_is_clamped() {
    assert_eq!(load_zoom_level(&StoredZoom::Stored(1000)).percent, 200);
    assert_eq!(load_zoom_level(&StoredZoom::Stored(10)).percent, 50);
    assert_eq!(load_zoom_level(&StoredZoom::Stored(-30)).percent, 50);
}

#[test]
fn adjust_moves_by_exactly_one_step() {
    assert_eq!(adjust_zoom(&StoredZoom::Stored(100), true).percent, 110);
    assert_eq!(adjust_zoom(&StoredZoom::Stored(100), false).percent, 90);
    assert_eq!(adjust_zoom(&StoredZoom::Missing, true).percent, 110);
    assert_eq!(adjust_zoom(&StoredZoom::Missing, false).percent, 90);
}

#[test]
fn adjust_clamps_at_upper_bound() {
    assert_eq!(adjust_zoom(&StoredZoom::Stored(195), true).percent, 200);
    assert_eq!(adjust_zoom(&StoredZoom::Stored(200), true).percent, 200);
}

#[test]
fn adjust_clamps_at_lower_bound() {
    assert_eq!(adjust_zoom(&StoredZoom::Stored(55), false).percent, 50);
    assert_eq!(adjust_zoom(&StoredZoom::Stored(50), false).percent, 50);
}

#[test]
fn any_sequence_of_adjustments_stays_in_domain() {
    // Walk a mixed run of adjustments, feeding each result back as the
    // persisted value the next command loads, as the real command cycle does.
    let directions = [
        true, true, true, true, true, true, true, true, true, true, true, true, false, false,
        true, false, false, false, false, false, false, false, false, false, false, false, true,
    ];
    let mut current = load_zoom_level(&StoredZoom::Missing).percent;
    for &zoom_in in directions.iter() {
        let next = adjust_zoom(&StoredZoom::Stored(current as i64), zoom_in).percent;
        assert!((50..=200).contains(&next));
        // Each step moves by exactly 10 percent unless the clamp cut it short
        // at a boundary.
        let moved = next as i64 - current as i64;
        if zoom_in {
            assert!(moved == 10 || (next == 200 && moved < 10));
        } else {
            assert!(moved == -10 || (next == 50 && moved > -10));
        }
        current = next;
    }
}

#[test]
fn applied_zoom_is_reported_back() {
    let level = ZoomLevel { percent: 130 };
    assert_eq!(zoom_apply_outcome(level, true), Ok(level));
}

#[test]
fn failed_zoom_application_is_a_hard_error() {
    let level = ZoomLevel { percent: 130 };
    assert_eq!(
        zoom_apply_outcome(level, false),
        Err(ShellError::ZoomApplyFailed)
    );
}
