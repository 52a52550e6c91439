//! The match session: one profile, one window, one template library,
//! one run of the capture → convert → match → decide loop, and its
//! cooperative cancellation.
//!
//! The session itself never touches the platform. Each turn of the
//! loop, the caller hands in the cancellation flag as it read it and
//! the capture as the platform produced it; `iterate` does everything
//! between those edges and returns one decision per template. The
//! caller performs the clicks and the sleep, then comes back.

use vstd::prelude::*;

use crate::config::Config;
use crate::decide::{decide_match, decision_of, Decision};
use crate::matcher::{is_match_result, match_template, MatchError, MatchResult};
use crate::raster::{luma_plane, rgba_to_luma_raster, LumaRaster, RgbaRaster};
use crate::templates::TemplateLibrary;

verus! {

/// Where a session stands in its life.
#[derive(Clone, Copy, Debug, PartialEq, Eq, Structural)]
pub enum SessionState {
    /// Created, nothing resolved yet.
    Idle,
    /// The window is resolved and templates are being loaded.
    Loading,
    /// The iteration loop is running.
    Running,
    /// Terminal: the loop observed the cleared flag or a fatal error.
    Stopped,
}

/// Why an iteration ended the session.
#[derive(Debug)]
pub enum SessionError {
    /// The platform could not capture the window's pixels; fatal to
    /// the session, not to the process.
    CaptureFailed,
    /// A template could not be matched against the captured frame.
    MatchFailed { name: String, error: MatchError },
}

/// One template's result in one iteration: the template's name, the
/// score surface minimum, and what the thresholds make of it.
#[derive(Debug)]
pub struct TemplateReport {
    pub name: String,
    pub result: MatchResult,
    pub decision: Decision,
}

/// Everything one iteration produced: the luminance frame the capture
/// converted to, and one report per template, in library order.
pub struct IterationReport {
    pub frame: LumaRaster,
    pub reports: Vec<TemplateReport>,
}

/// One run of the match loop bound to one profile, one window handle
/// and one template library.
pub struct Session {
    pub profile: Config,
    pub hwnd: isize,
    pub library: TemplateLibrary,
    pub state: SessionState,
}

/// Template i of the library can be matched against a frame of the
/// given dimensions: it is non-empty and no larger than the frame.
pub open spec fn matchable_at(lib: &TemplateLibrary, fw: u32, fh: u32, i: int) -> bool {
    &&& 1 <= lib.entries@[i].1.width <= fw
    &&& 1 <= lib.entries@[i].1.height <= fh
}

/// Report rep is exactly what template i of the library yields against
/// this frame under these thresholds: right name, true score-surface
/// minimum, and the threshold policy's decision on it.
pub open spec fn valid_report(
    lib: &TemplateLibrary, frame: &LumaRaster, low: u64, high: u64, i: int, rep: TemplateReport,
) -> bool {
    &&& rep.name@ == lib.entries@[i].0@
    &&& is_match_result(frame, &lib.entries@[i].1, rep.result)
    &&& rep.decision == decision_of(
        rep.result,
        lib.entries@[i].1.width,
        lib.entries@[i].1.height,
        low,
        high,
    )
}

impl Session {
    /// A fresh, idle session for one profile and one resolved window.
    pub fn new(profile: Config, hwnd: isize) -> (s: Session)
        ensures
            s.state is Idle,
            s.profile == profile,
            s.hwnd == hwnd,
            s.library.wf(),
            s.library.entries@.len() == 0,
    {
        Session { profile, hwnd, library: TemplateLibrary::new(), state: SessionState::Idle }
    }

    /// Enters loading: the window is resolved, templates are on their
    /// way.
    pub fn begin_loading(&mut self)
        requires
            old(self).state is Idle,
        ensures
            final(self).state is Loading,
            final(self).profile == old(self).profile,
            final(self).hwnd == old(self).hwnd,
            final(self).library == old(self).library,
    {
        self.state = SessionState::Loading;
    }

    /// Takes the loaded library and enters the iteration loop.
    pub fn finish_loading(&mut self, library: TemplateLibrary)
        requires
            old(self).state is Loading,
            library.wf(),
        ensures
            final(self).state is Running,
            final(self).profile == old(self).profile,
            final(self).hwnd == old(self).hwnd,
            final(self).library == library,
    {
        self.library = library;
        self.state = SessionState::Running;
    }

    /// One turn of the loop. The flag is read first: a cleared flag
    /// stops the session in this very turn, before any capture is
    /// examined and with no action proposed — cancellation latency is
    /// bounded by one iteration. Otherwise the capture is converted to
    /// luminance and every template in the library is matched against
    /// it, in library order, yielding exactly one decision per
    /// template. A failed capture or an unmatchable template ends the
    /// session with the error; the process and the other profiles are
    /// untouched.
    #[verifier::loop_isolation(false)]
    pub fn iterate(&mut self, flag: bool, capture: Option<RgbaRaster>) -> (r: Result<
        Option<IterationReport>,
        SessionError,
    >)
        requires
            old(self).state is Running,
            old(self).library.wf(),
            capture matches Some(c) ==> c.wf(),
        ensures
            final(self).profile == old(self).profile,
            final(self).hwnd == old(self).hwnd,
            final(self).library == old(self).library,
            !flag ==> final(self).state is Stopped && r matches Ok(None),
            flag && capture is None ==> final(self).state is Stopped && r matches Err(
                SessionError::CaptureFailed,
            ),
            flag ==> (capture matches Some(c) ==> match r {
                Ok(rep) => {
                    &&& final(self).state is Running
                    &&& rep matches Some(ir)
                    &&& ir.frame.wf()
                    &&& ir.frame.width == c.width
                    &&& ir.frame.height == c.height
                    &&& ir.frame.data@ == luma_plane(c.width, c.height, c.pixels@)
                    &&& ir.reports@.len() == old(self).library.entries@.len()
                    &&& forall|i: int|
                        0 <= i < ir.reports@.len() ==> valid_report(
                            &old(self).library,
                            &ir.frame,
                            old(self).profile.low_milli,
                            old(self).profile.high_milli,
                            i,
                            #[trigger] ir.reports@[i],
                        )
                    &&& forall|i: int|
                        0 <= i < old(self).library.entries@.len() ==> #[trigger] matchable_at(
                            &old(self).library,
                            c.width,
                            c.height,
                            i,
                        )
                },
                Err(e) => {
                    &&& final(self).state is Stopped
                    &&& e is MatchFailed
                    &&& e matches SessionError::MatchFailed { name, error } ==> exists|i: int|
                        {
                            &&& 0 <= i < old(self).library.entries@.len()
                            &&& !matchable_at(&old(self).library, c.width, c.height, i)
                            &&& name@ == #[trigger] old(self).library.entries@[i].0@
                        }
                },
            }),
    {
        if !flag {
            self.state = SessionState::Stopped;
            return Ok(None);
        }
        let frame_rgba: RgbaRaster = match capture {
            Some(c) => c,
            None => {
                self.state = SessionState::Stopped;
                return Err(SessionError::CaptureFailed);
            },
        };
        let frame: LumaRaster = rgba_to_luma_raster(&frame_rgba);
        let n: usize = self.library.entries.len();
        let mut reports: Vec<TemplateReport> = Vec::new();
        let mut i: usize = 0;
        while i < n
            invariant
                *self == *old(self),
                i <= n,
                frame.wf(),
                reports@.len() == i,
                forall|k: int|
                    0 <= k < i ==> valid_report(
                        &self.library,
                        &frame,
                        self.profile.low_milli,
                        self.profile.high_milli,
                        k,
                        #[trigger] reports@[k],
                    ),
                forall|k: int|
                    0 <= k < i ==> #[trigger] matchable_at(
                        &self.library,
                        frame.width,
                        frame.height,
                        k,
                    ),
            decreases n - i,
        {
            let entry_name: &String = &self.library.entries[i].0;
            let tpl: &LumaRaster = &self.library.entries[i].1;
            match match_template(&frame, tpl) {
                Ok(m) => {
                    let decision: Decision = decide_match(
                        &m,
                        tpl.width,
                        tpl.height,
                        self.profile.low_milli,
                        self.profile.high_milli,
                    );
                    let name: String = entry_name.clone();
                    reports.push(TemplateReport { name, result: m, decision });
                },
                Err(error) => {
                    let name: String = entry_name.clone();
                    proof {
                        assert(name@ == old(self).library.entries@[i as int].0@);
                        assert(!matchable_at(
                            &old(self).library,
                            frame_rgba.width,
                            frame_rgba.height,
                            i as int,
                        ));
                    }
                    self.state = SessionState::Stopped;
                    return Err(SessionError::MatchFailed { name, error });
                },
            }
            i = i + 1;
        }
        Ok(Some(IterationReport { frame, reports }))
    }
}

} // verus!
