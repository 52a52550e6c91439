use matchclick::config::{outer_window_size, client_size_of_rect, Config, WINPAD_X, WINPAD_Y};
use matchclick::decide::{decide_match, Decision, SCORE_MILLI};
use matchclick::matcher::MatchResult;

fn result_with_score(milli_thousandths: u128) -> MatchResult {
    MatchResult { min_value: milli_thousandths * SCORE_MILLI as u128, min_x: 10, min_y: 20 }
}

#[test]
fn score_just_below_low_threshold_clicks_once() {
    // 2.999 with low = 3.0, high = 8.0: one click at the template centre.
    let m = result_with_score(2999);
    let d = decide_match(&m, 8, 6, 3000, 8000);
    assert_eq!(d, Decision::Click { x: 10 + 4, y: 20 + 3 });
}

#[test]
fn score_in_the_middle_reports_near_match() {
    // 5.0: report only, no action.
    let m = result_with_score(5000);
    let d = decide_match(&m, 8, 6, 3000, 8000);
    assert_eq!(d, Decision::NearMatch);
}

#[test]
fn score_above_high_threshold_is_ignored() {
    // 8.001: nothing at all.
    let m = result_with_score(8001);
    let d = decide_match(&m, 8, 6, 3000, 8000);
    assert_eq!(d, Decision::Ignore);
}

#[test]
fn thresholds_are_strict() {
    // Exactly 3.0 is not below 3.0; exactly 8.0 is not below 8.0.
    let at_low = result_with_score(3000);
    assert_eq!(decide_match(&at_low, 2, 2, 3000, 8000), Decision::NearMatch);
    let at_high = result_with_score(8000);
    assert_eq!(decide_match(&at_high, 2, 2, 3000, 8000), Decision::Ignore);
}

#[test]
fn perfect_score_clicks_at_centre() {
    let m = MatchResult { min_value: 0, min_x: 3, min_y: 4 };
    assert_eq!(decide_match(&m, 10, 20, 3000, 8000), Decision::Click { x: 8, y: 14 });
}

#[test]
fn score_units_agree_with_the_luminance_scale() {
    let scale = matchclick::luma::LUMA_SCALE as u64;
    assert_eq!(matchclick::matcher::MAX_PIXEL_SQ, scale * scale);
    assert_eq!(SCORE_MILLI * 1000, scale * scale);
}

#[test]
fn default_profile_has_stock_thresholds() {
    let c = Config::default();
    assert_eq!(c.low_milli, 3000);
    assert_eq!(c.high_milli, 8000);
    assert!(!c.foreground);
    assert_eq!(c.cmd, "");
    assert_eq!(c.alias, "");
}

#[test]
fn window_geometry_round_trips() {
    let (w, h) = outer_window_size(800, 600).unwrap();
    assert_eq!((w, h), (800 + WINPAD_X, 600 + WINPAD_Y));
    let (cw, ch) = client_size_of_rect(10, 20, 10 + w, 20 + h).unwrap();
    assert_eq!((cw, ch), (800, 600));
}

#[test]
fn window_geometry_overflow_is_reported() {
    assert!(outer_window_size(i32::MAX, 0).is_none());
    assert!(outer_window_size(0, i32::MAX).is_none());
    assert!(client_size_of_rect(i32::MIN, 0, i32::MAX, 0).is_none());
}
