//! The threshold decision: what one template's match result leads to
//! in one iteration.
//!
//! Scores live in the scaled-integer score domain (squared scaled
//! luminance, see the `matcher` module); thresholds come from the
//! profile in thousandths of squared unit luminance. A score strictly
//! below the low threshold is a confident match and dispatches one
//! click at the matched template's centre; below the high threshold it
//! is reported as a near match; anything else is ignored.

use vstd::prelude::*;

use crate::matcher::MatchResult;

verus! {

/// Scaled-score value of one thousandth of squared unit luminance:
/// `LUMA_SCALE * LUMA_SCALE / 1000`.
pub const SCORE_MILLI: u64 = 4_228_250_625_000;

/// The scaled score below which a raw score beats a threshold of
/// `milli` thousandths of squared unit luminance.
pub open spec fn scaled_threshold(milli: u64) -> int {
    milli * SCORE_MILLI
}

/// A score beats a threshold when it lies strictly below it.
pub open spec fn beats(score: u128, milli: u64) -> bool {
    score < scaled_threshold(milli)
}

/// What one template's match leads to in one iteration.
#[derive(Clone, Copy, Debug, PartialEq, Eq, Structural)]
pub enum Decision {
    /// Confident match: dispatch exactly one click at this client
    /// coordinate, the centre of the matched template.
    Click { x: u32, y: u32 },
    /// Near match: report it, take no action.
    NearMatch,
    /// No match worth mentioning.
    Ignore,
}

/// The decision the threshold policy assigns to one match result: a
/// click at the matched template's centre below the low threshold, a
/// near-match report below the high one, nothing otherwise.
pub open spec fn decision_of(
    m: MatchResult, tpl_width: u32, tpl_height: u32, low_milli: u64, high_milli: u64,
) -> Decision {
    if beats(m.min_value, low_milli) {
        (Decision::Click {
            x: (m.min_x + tpl_width / 2) as u32,
            y: (m.min_y + tpl_height / 2) as u32,
        })
    } else if beats(m.min_value, high_milli) {
        Decision::NearMatch
    } else {
        Decision::Ignore
    }
}

/// Applies the threshold policy to one match result. The click target
/// is the match location plus half the template size.
pub fn decide_match(
    m: &MatchResult, tpl_width: u32, tpl_height: u32, low_milli: u64, high_milli: u64,
) -> (d: Decision)
    requires
        m.min_x + tpl_width / 2 <= u32::MAX,
        m.min_y + tpl_height / 2 <= u32::MAX,
    ensures
        d == decision_of(*m, tpl_width, tpl_height, low_milli, high_milli),
        d is Click <==> beats(m.min_value, low_milli),
        d is NearMatch <==> !beats(m.min_value, low_milli) && beats(m.min_value, high_milli),
        d is Ignore <==> !beats(m.min_value, low_milli) && !beats(m.min_value, high_milli),
        d matches Decision::Click { x, y } ==> x == m.min_x + tpl_width / 2 && y == m.min_y
            + tpl_height / 2,
{
    proof {
        assert((low_milli as int) * (SCORE_MILLI as int) <= 0xffff_ffff_ffff_ffff
            * 4_228_250_625_000) by (nonlinear_arith)
            requires
                low_milli <= 0xffff_ffff_ffff_ffff,
        ;
        assert((high_milli as int) * (SCORE_MILLI as int) <= 0xffff_ffff_ffff_ffff
            * 4_228_250_625_000) by (nonlinear_arith)
            requires
                high_milli <= 0xffff_ffff_ffff_ffff,
        ;
    }
    let low: u128 = (low_milli as u128) * (SCORE_MILLI as u128);
    let high: u128 = (high_milli as u128) * (SCORE_MILLI as u128);
    if m.min_value < low {
        Decision::Click { x: m.min_x + tpl_width / 2, y: m.min_y + tpl_height / 2 }
    } else if m.min_value < high {
        Decision::NearMatch
    } else {
        Decision::Ignore
    }
}

} // verus!
