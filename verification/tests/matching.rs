use matchclick::matcher::{match_template, MatchError, MatchResult};
use matchclick::raster::LumaRaster;

fn raster(width: u32, height: u32, data: Vec<u32>) -> LumaRaster {
    assert_eq!(data.len(), (width * height) as usize);
    LumaRaster { width, height, data }
}

#[test]
fn self_match_scores_zero_at_origin() {
    let f = raster(2, 2, vec![10, 20, 30, 40]);
    let t = raster(2, 2, vec![10, 20, 30, 40]);
    let m = match_template(&f, &t).unwrap();
    assert_eq!(m, MatchResult { min_value: 0, min_x: 0, min_y: 0 });
}

#[test]
fn exact_occurrence_found_at_offset() {
    let f = raster(3, 3, vec![9, 9, 9, 9, 5, 7, 9, 6, 8]);
    let t = raster(2, 2, vec![5, 7, 6, 8]);
    let m = match_template(&f, &t).unwrap();
    assert_eq!(m, MatchResult { min_value: 0, min_x: 1, min_y: 1 });
}

#[test]
fn score_is_sum_of_squared_differences() {
    // Equal sizes: one alignment, score fully determined.
    let f = raster(2, 1, vec![10, 20]);
    let t = raster(2, 1, vec![13, 16]);
    let m = match_template(&f, &t).unwrap();
    assert_eq!(m.min_value, 3 * 3 + 4 * 4);
    assert_eq!((m.min_x, m.min_y), (0, 0));
}

#[test]
fn uniform_noise_raises_the_score() {
    let t = raster(2, 2, vec![100, 200, 300, 400]);
    let exact = raster(2, 2, vec![100, 200, 300, 400]);
    let small = raster(2, 2, vec![103, 203, 303, 403]);
    let large = raster(2, 2, vec![105, 205, 305, 405]);
    let s0 = match_template(&exact, &t).unwrap().min_value;
    let s1 = match_template(&small, &t).unwrap().min_value;
    let s2 = match_template(&large, &t).unwrap().min_value;
    assert_eq!(s0, 0);
    assert_eq!(s1, 4 * 9);
    assert_eq!(s2, 4 * 25);
    assert!(s0 <= s1 && s1 <= s2);
}

#[test]
fn first_minimum_in_scan_order_wins() {
    // Two exact occurrences; the earlier one (row-major) is reported.
    let f = raster(3, 1, vec![5, 5, 5]);
    let t = raster(1, 1, vec![5]);
    let m = match_template(&f, &t).unwrap();
    assert_eq!((m.min_x, m.min_y), (0, 0));
    assert_eq!(m.min_value, 0);
}

#[test]
fn empty_template_is_rejected() {
    let f = raster(2, 2, vec![1, 2, 3, 4]);
    let t = raster(0, 2, vec![]);
    assert!(matches!(match_template(&f, &t), Err(MatchError::EmptyTemplate)));
}

#[test]
fn oversized_template_is_rejected() {
    let f = raster(2, 2, vec![1, 2, 3, 4]);
    let t = raster(3, 1, vec![1, 2, 3]);
    assert!(matches!(match_template(&f, &t), Err(MatchError::TemplateTooLarge)));
}
