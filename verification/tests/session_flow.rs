use matchclick::config::Config;
use matchclick::decide::Decision;
use matchclick::raster::{LumaRaster, RgbaRaster};
use matchclick::session::{Session, SessionError, SessionState};
use matchclick::templates::TemplateLibrary;

fn running_session(templates: Vec<(&str, LumaRaster)>) -> Session {
    let mut lib = TemplateLibrary::new();
    for (name, raster) in templates {
        lib.insert(name.to_string(), raster);
    }
    let mut s = Session::new(Config::default(), 42);
    assert_eq!(s.state, SessionState::Idle);
    s.begin_loading();
    assert_eq!(s.state, SessionState::Loading);
    s.finish_loading(lib);
    assert_eq!(s.state, SessionState::Running);
    s
}

fn white_pixel_frame() -> RgbaRaster {
    RgbaRaster { width: 1, height: 1, pixels: vec![255, 255, 255, 255] }
}

#[test]
fn cleared_flag_stops_within_one_iteration() {
    let mut s = running_session(vec![(
        "a",
        LumaRaster { width: 1, height: 1, data: vec![0] },
    )]);
    let r = s.iterate(false, Some(white_pixel_frame()));
    // The cleared flag is observed at the iteration boundary: the
    // session stops at once, matches nothing, proposes nothing.
    assert!(matches!(r, Ok(None)));
    assert_eq!(s.state, SessionState::Stopped);
}

#[test]
fn failed_capture_ends_the_session() {
    let mut s = running_session(vec![]);
    let r = s.iterate(true, None);
    assert!(matches!(r, Err(SessionError::CaptureFailed)));
    assert_eq!(s.state, SessionState::Stopped);
}

#[test]
fn exact_match_clicks_at_template_centre() {
    let template = LumaRaster { width: 1, height: 1, data: vec![65_025_000] };
    let mut s = running_session(vec![("white", template)]);
    let report = s.iterate(true, Some(white_pixel_frame())).unwrap().unwrap();
    assert_eq!(s.state, SessionState::Running);
    assert_eq!(report.reports.len(), 1);
    let rep = &report.reports[0];
    assert_eq!(rep.name, "white");
    assert_eq!(rep.result.min_value, 0);
    assert_eq!((rep.result.min_x, rep.result.min_y), (0, 0));
    assert_eq!(rep.decision, Decision::Click { x: 0, y: 0 });
}

#[test]
fn every_template_is_evaluated_in_library_order() {
    // A 3x3 all-white frame against a matching template and an
    // all-black one: nine full-scale pixel differences score 9.0,
    // above the high threshold of 8.0.
    let matching = LumaRaster { width: 3, height: 3, data: vec![65_025_000; 9] };
    let far_off = LumaRaster { width: 3, height: 3, data: vec![0; 9] };
    let mut s = running_session(vec![("hit", matching), ("miss", far_off)]);
    let frame = RgbaRaster { width: 3, height: 3, pixels: vec![255; 36] };
    let report = s.iterate(true, Some(frame)).unwrap().unwrap();
    assert_eq!(report.reports.len(), 2);
    assert_eq!(report.reports[0].name, "hit");
    assert_eq!(report.reports[0].decision, Decision::Click { x: 1, y: 1 });
    assert_eq!(report.reports[1].name, "miss");
    assert_eq!(report.reports[1].decision, Decision::Ignore);
}

#[test]
fn oversized_template_ends_the_session_with_its_name() {
    let too_big = LumaRaster { width: 2, height: 2, data: vec![0, 0, 0, 0] };
    let mut s = running_session(vec![("big", too_big)]);
    let r = s.iterate(true, Some(white_pixel_frame()));
    match r {
        Err(SessionError::MatchFailed { name, .. }) => assert_eq!(name, "big"),
        other => panic!("expected a match failure, got {:?}", other.is_ok()),
    }
    assert_eq!(s.state, SessionState::Stopped);
}

#[test]
fn converted_frame_is_returned_with_the_reports() {
    let template = LumaRaster { width: 1, height: 1, data: vec![65_025_000] };
    let mut s = running_session(vec![("white", template)]);
    let report = s.iterate(true, Some(white_pixel_frame())).unwrap().unwrap();
    assert_eq!(report.frame.width, 1);
    assert_eq!(report.frame.height, 1);
    assert_eq!(report.frame.data, vec![65_025_000]);
}
