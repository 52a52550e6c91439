//! Template matching by sum of squared differences.
//!
//! Laying a template over a frame at an offset, the score of that
//! alignment is the sum over all template pixels of the squared
//! difference of scaled luminance. Lower is more similar; zero is an
//! exact match. `match_template` computes the score of every valid
//! alignment and returns the global minimum with the first location
//! (in row-major scan order) that attains it.

use vstd::prelude::*;

use crate::luma::LUMA_SCALE;
use crate::raster::{lemma_grid_index, LumaRaster};

verus! {

/// Largest possible squared difference of two luminance samples:
/// `LUMA_SCALE * LUMA_SCALE`.
pub const MAX_PIXEL_SQ: u64 = 4_228_250_625_000_000;

/// The square of a difference.
pub open spec fn sq(d: int) -> int {
    d * d
}

/// Sum of squared differences over the first n pixels of template row
/// y, with the template laid on the frame at offset (dx, dy).
pub open spec fn ssd_row(
    f: &LumaRaster, t: &LumaRaster, dx: int, dy: int, y: int, n: int,
) -> int
    decreases n,
{
    if n <= 0 {
        0
    } else {
        ssd_row(f, t, dx, dy, y, n - 1) + sq(f.at(dx + n - 1, dy + y) - t.at(n - 1, y))
    }
}

/// Sum of squared differences over the first m full template rows.
pub open spec fn ssd_rows(f: &LumaRaster, t: &LumaRaster, dx: int, dy: int, m: int) -> int
    decreases m,
{
    if m <= 0 {
        0
    } else {
        ssd_rows(f, t, dx, dy, m - 1) + ssd_row(f, t, dx, dy, m - 1, t.width as int)
    }
}

/// Score of the alignment that puts the template's top-left corner on
/// frame pixel (dx, dy): the sum of squared luminance differences over
/// the whole template.
pub open spec fn ssd_at(f: &LumaRaster, t: &LumaRaster, dx: int, dy: int) -> int {
    ssd_rows(f, t, dx, dy, t.height as int)
}

/// The template, laid at (dx, dy), lies entirely inside the frame.
pub open spec fn valid_offset(f: &LumaRaster, t: &LumaRaster, dx: int, dy: int) -> bool {
    0 <= dx && dx + t.width <= f.width && 0 <= dy && dy + t.height <= f.height
}

/// (x1, y1) is visited before (x2, y2) in row-major scan order.
pub open spec fn scan_before(x1: int, y1: int, x2: int, y2: int) -> bool {
    y1 < y2 || (y1 == y2 && x1 < x2)
}

/// The squared difference of two samples within scale is at most
/// `MAX_PIXEL_SQ`.
proof fn lemma_sq_diff_bound(a: int, b: int)
    requires
        0 <= a <= LUMA_SCALE,
        0 <= b <= LUMA_SCALE,
    ensures
        0 <= sq(a - b) <= MAX_PIXEL_SQ,
{
    assert(0 <= (a - b) * (a - b) <= 65_025_000 * 65_025_000) by (nonlinear_arith)
        requires
            0 <= a <= 65_025_000,
            0 <= b <= 65_025_000,
    ;
}

/// Every partial row sum is non-negative and at most n squares.
proof fn lemma_ssd_row_bounds(
    f: &LumaRaster, t: &LumaRaster, dx: int, dy: int, y: int, n: int,
)
    requires
        f.wf(),
        t.wf(),
        0 <= dx,
        0 <= dy,
        0 <= n <= t.width,
        dx + t.width <= f.width,
        0 <= y < t.height,
        dy + y < f.height,
    ensures
        0 <= ssd_row(f, t, dx, dy, y, n) <= n * MAX_PIXEL_SQ,
    decreases n,
{
    if n > 0 {
        lemma_ssd_row_bounds(f, t, dx, dy, y, n - 1);
        lemma_grid_index(f.width as int, f.height as int, dx + n - 1, dy + y);
        lemma_grid_index(t.width as int, t.height as int, n - 1, y);
        lemma_sq_diff_bound(f.at(dx + n - 1, dy + y), t.at(n - 1, y));
    }
}

/// Every partial score is non-negative and at most m rows of squares.
proof fn lemma_ssd_rows_bounds(f: &LumaRaster, t: &LumaRaster, dx: int, dy: int, m: int)
    requires
        f.wf(),
        t.wf(),
        0 <= dx,
        0 <= dy,
        0 <= m <= t.height,
        dx + t.width <= f.width,
        dy + t.height <= f.height,
    ensures
        0 <= ssd_rows(f, t, dx, dy, m) <= m * (t.width * MAX_PIXEL_SQ),
    decreases m,
{
    if m > 0 {
        lemma_ssd_rows_bounds(f, t, dx, dy, m - 1);
        lemma_ssd_row_bounds(f, t, dx, dy, m - 1, t.width as int);
        assert((m - 1) * (t.width * MAX_PIXEL_SQ) + t.width * MAX_PIXEL_SQ == m * (t.width
            * MAX_PIXEL_SQ)) by (nonlinear_arith);
    }
}

/// A valid alignment's score is never negative.
pub proof fn lemma_ssd_nonneg(f: &LumaRaster, t: &LumaRaster, dx: int, dy: int)
    requires
        f.wf(),
        t.wf(),
        valid_offset(f, t, dx, dy),
    ensures
        ssd_at(f, t, dx, dy) >= 0,
{
    lemma_ssd_rows_bounds(f, t, dx, dy, t.height as int);
}

/// The absolute difference squares to the squared difference.
proof fn lemma_sq_abs(a: int, b: int, d: int)
    requires
        d == if a >= b { a - b } else { b - a },
    ensures
        sq(a - b) == d * d,
{
    assert((a - b) * (a - b) == d * d) by (nonlinear_arith)
        requires
            d == a - b || d == b - a,
    ;
}

/// Computes the score of one alignment.
#[verifier::loop_isolation(false)]
fn ssd_at_exec(f: &LumaRaster, t: &LumaRaster, dx: u32, dy: u32) -> (s: u128)
    requires
        f.wf(),
        t.wf(),
        dx + t.width <= f.width,
        dy + t.height <= f.height,
    ensures
        s == ssd_at(f, t, dx as int, dy as int),
{
    let flen: usize = f.data.len();
    let tlen: usize = t.data.len();
    let mut acc: u128 = 0;
    let mut y: u32 = 0;
    while y < t.height
        invariant
            y <= t.height,
            acc == ssd_rows(f, t, dx as int, dy as int, y as int),
            acc <= (y as int) * ((t.width as int) * MAX_PIXEL_SQ),
        decreases t.height - y,
    {
        let mut x: u32 = 0;
        proof {
            lemma_ssd_rows_bounds(f, t, dx as int, dy as int, y as int);
            assert((y as int) * ((t.width as int) * MAX_PIXEL_SQ) == ((y as int) * (
            t.width as int)) * MAX_PIXEL_SQ) by (nonlinear_arith);
        }
        while x < t.width
            invariant
                x <= t.width,
                y < t.height,
                acc == ssd_rows(f, t, dx as int, dy as int, y as int) + ssd_row(
                    f, t, dx as int, dy as int, y as int, x as int,
                ),
                acc <= ((y as int) * (t.width as int) + (x as int)) * MAX_PIXEL_SQ,
            decreases t.width - x,
        {
            let fx: u32 = dx + x;
            let fy: u32 = dy + y;
            proof {
                lemma_grid_index(f.width as int, f.height as int, fx as int, fy as int);
                lemma_grid_index(t.width as int, t.height as int, x as int, y as int);
            }
            let fi: usize = (fy as usize) * (f.width as usize) + (fx as usize);
            let ti: usize = (y as usize) * (t.width as usize) + (x as usize);
            let fv: u32 = f.data[fi];
            let tv: u32 = t.data[ti];
            let d: u64 = if fv >= tv {
                (fv - tv) as u64
            } else {
                (tv - fv) as u64
            };
            proof {
                lemma_sq_abs(fv as int, tv as int, d as int);
                assert(d * d <= 4_228_250_625_000_000) by (nonlinear_arith)
                    requires
                        0 <= d <= 65_025_000,
                ;
                assert(((y as int) * (t.width as int) + (x as int)) + 1 <= (t.width as int) * (
                t.height as int)) by (nonlinear_arith)
                    requires
                        0 <= x < t.width,
                        0 <= y < t.height,
                ;
                assert(((y as int) * (t.width as int) + (x as int) + 1) * MAX_PIXEL_SQ <= (
                (t.width as int) * (t.height as int)) * MAX_PIXEL_SQ) by (nonlinear_arith)
                    requires
                        (y as int) * (t.width as int) + (x as int) + 1 <= (t.width as int) * (
                        t.height as int),
                ;
                assert(((t.width as int) * (t.height as int)) * MAX_PIXEL_SQ < u128::MAX)
                    by (nonlinear_arith)
                    requires
                        (t.width as int) * (t.height as int) <= 0xffff_ffff_ffff_ffff,
                ;
            }
            let sqd: u64 = d * d;
            acc = acc + (sqd as u128);
            x = x + 1;
        }
        proof {
            lemma_ssd_rows_bounds(f, t, dx as int, dy as int, y as int + 1);
        }
        y = y + 1;
    }
    acc
}

/// The global minimum of a match-score surface: its value and the
/// frame offset where it first occurs in row-major scan order.
#[derive(Clone, Copy, Debug, PartialEq, Eq, Structural)]
pub struct MatchResult {
    pub min_value: u128,
    pub min_x: u32,
    pub min_y: u32,
}

/// Why a template cannot be matched against a frame.
#[derive(Clone, Copy, Debug, PartialEq, Eq, Structural)]
pub enum MatchError {
    /// The template has a zero dimension; no alignment means anything.
    EmptyTemplate,
    /// The template does not fit inside the frame at any offset.
    TemplateTooLarge,
}

/// What `match_template` promises of a successful result: the location
/// is a valid alignment, the value is that alignment's score, no valid
/// alignment scores lower, and every alignment scanned earlier scores
/// strictly higher — so the location is the first minimum.
pub open spec fn is_match_result(f: &LumaRaster, t: &LumaRaster, m: MatchResult) -> bool {
    &&& m.min_x + t.width <= f.width
    &&& m.min_y + t.height <= f.height
    &&& m.min_value == ssd_at(f, t, m.min_x as int, m.min_y as int)
    &&& forall|dx: int, dy: int|
        valid_offset(f, t, dx, dy) ==> #[trigger] ssd_at(f, t, dx, dy) >= m.min_value
    &&& forall|dx: int, dy: int|
        valid_offset(f, t, dx, dy) && scan_before(dx, dy, m.min_x as int, m.min_y as int)
            ==> #[trigger] ssd_at(f, t, dx, dy) > m.min_value
}

/// Scores every alignment of the template over the frame and returns
/// the minimum score and its first location, or says why the pair
/// cannot be matched. The call blocks until the whole surface has been
/// scanned; every alignment is evaluated.
#[verifier::loop_isolation(false)]
pub fn match_template(f: &LumaRaster, t: &LumaRaster) -> (r: Result<MatchResult, MatchError>)
    requires
        f.wf(),
        t.wf(),
    ensures
        r is Ok <==> 1 <= t.width <= f.width && 1 <= t.height <= f.height,
        r matches Ok(m) ==> is_match_result(f, t, m),
        r matches Err(e) ==> (e is EmptyTemplate <==> t.width == 0 || t.height == 0),
        r matches Err(e) ==> (e is TemplateTooLarge <==> t.width >= 1 && t.height >= 1 && (
        t.width > f.width || t.height > f.height)),
{
    if t.width == 0 || t.height == 0 {
        return Err(MatchError::EmptyTemplate);
    }
    if t.width > f.width || t.height > f.height {
        return Err(MatchError::TemplateTooLarge);
    }
    let nx: u32 = f.width - t.width + 1;
    let ny: u32 = f.height - t.height + 1;
    let mut best: u128 = ssd_at_exec(f, t, 0, 0);
    let mut bx: u32 = 0;
    let mut by: u32 = 0;
    let mut dy: u32 = 0;
    while dy < ny
        invariant
            dy <= ny,
            bx < nx,
            by < ny,
            best == ssd_at(f, t, bx as int, by as int),
            by < dy || (dy == 0 && bx == 0 && by == 0),
            forall|a: int, b: int|
                valid_offset(f, t, a, b) && scan_before(a, b, 0, dy as int) ==> #[trigger] ssd_at(
                    f, t, a, b,
                ) >= best,
            forall|a: int, b: int|
                valid_offset(f, t, a, b) && scan_before(a, b, 0, dy as int) && scan_before(
                    a, b, bx as int, by as int,
                ) ==> #[trigger] ssd_at(f, t, a, b) > best,
        decreases ny - dy,
    {
        let mut dx: u32 = 0;
        while dx < nx
            invariant
                dx <= nx,
                dy < ny,
                bx < nx,
                by < ny,
                best == ssd_at(f, t, bx as int, by as int),
                scan_before(bx as int, by as int, dx as int, dy as int) || (bx == dx && by == dy
                    && dx == 0 && dy == 0),
                forall|a: int, b: int|
                    valid_offset(f, t, a, b) && scan_before(a, b, dx as int, dy as int)
                        ==> #[trigger] ssd_at(f, t, a, b) >= best,
                forall|a: int, b: int|
                    valid_offset(f, t, a, b) && scan_before(a, b, dx as int, dy as int)
                        && scan_before(a, b, bx as int, by as int) ==> #[trigger] ssd_at(
                        f, t, a, b,
                    ) > best,
            decreases nx - dx,
        {
            let s: u128 = ssd_at_exec(f, t, dx, dy);
            if s < best {
                best = s;
                bx = dx;
                by = dy;
            }
            dx = dx + 1;
        }
        dy = dy + 1;
    }
    Ok(MatchResult { min_value: best, min_x: bx, min_y: by })
}

/// How far one frame pixel strays from the template pixel it covers,
/// as a magnitude, with the template laid at (dx, dy).
pub open spec fn pixel_dev(f: &LumaRaster, t: &LumaRaster, dx: int, dy: int, x: int, y: int) -> nat {
    vstd::math::abs(f.at(dx + x, dy + y) - t.at(x, y))
}

/// The squared difference contributed by one template pixel.
pub open spec fn pixel_sq_diff(
    f: &LumaRaster, t: &LumaRaster, dx: int, dy: int, x: int, y: int,
) -> int {
    sq(f.at(dx + x, dy + y) - t.at(x, y))
}

proof fn lemma_ssd_row_self_zero(f: &LumaRaster, y: int, n: int)
    ensures
        ssd_row(f, f, 0, 0, y, n) == 0,
    decreases n,
{
    if n > 0 {
        lemma_ssd_row_self_zero(f, y, n - 1);
        assert(sq(f.at(n - 1, y) - f.at(n - 1, y)) == 0);
    }
}

proof fn lemma_ssd_rows_self_zero(f: &LumaRaster, m: int)
    ensures
        ssd_rows(f, f, 0, 0, m) == 0,
    decreases m,
{
    if m > 0 {
        lemma_ssd_rows_self_zero(f, m - 1);
        lemma_ssd_row_self_zero(f, m - 1, f.width as int);
    }
}

/// A raster laid exactly on itself scores zero at the origin.
pub proof fn lemma_self_match_zero(f: &LumaRaster)
    ensures
        ssd_at(f, f, 0, 0) == 0,
{
    lemma_ssd_rows_self_zero(f, f.height as int);
}

/// Matching a frame against itself yields minimum score zero at
/// location (0, 0): the origin scores zero, no alignment scores less,
/// and the first minimum in scan order is the origin itself.
pub proof fn lemma_self_match(f: &LumaRaster, m: MatchResult)
    requires
        f.wf(),
        is_match_result(f, f, m),
    ensures
        m.min_value == 0,
        m.min_x == 0,
        m.min_y == 0,
{
    lemma_self_match_zero(f);
    assert(valid_offset(f, f, 0, 0));
    assert(ssd_at(f, f, 0, 0) >= m.min_value);
    lemma_ssd_nonneg(f, f, m.min_x as int, m.min_y as int);
    assert(m.min_value == 0);
    if m.min_x != 0 || m.min_y != 0 {
        assert(scan_before(0, 0, m.min_x as int, m.min_y as int));
        assert(ssd_at(f, f, 0, 0) > 0);
        assert(false);
    }
}

/// A smaller magnitude squares to a smaller square.
pub proof fn lemma_sq_monotone(d1: int, d2: int)
    requires
        vstd::math::abs(d1) <= vstd::math::abs(d2),
    ensures
        sq(d1) <= sq(d2),
{
    let a1: int = if d1 < 0 { -d1 } else { d1 };
    let a2: int = if d2 < 0 { -d2 } else { d2 };
    assert(d1 * d1 <= d2 * d2) by (nonlinear_arith)
        requires
            0 <= a1 <= a2,
            d1 == a1 || d1 == -a1,
            d2 == a2 || d2 == -a2,
    ;
}

proof fn lemma_ssd_row_pointwise(
    f1: &LumaRaster, f2: &LumaRaster, t: &LumaRaster, dx: int, dy: int, y: int, n: int,
)
    requires
        0 <= n <= t.width,
        0 <= y < t.height,
        forall|x: int, yy: int|
            0 <= x < t.width && 0 <= yy < t.height ==> #[trigger] pixel_sq_diff(
                f1, t, dx, dy, x, yy,
            ) <= pixel_sq_diff(f2, t, dx, dy, x, yy),
    ensures
        ssd_row(f1, t, dx, dy, y, n) <= ssd_row(f2, t, dx, dy, y, n),
    decreases n,
{
    if n > 0 {
        lemma_ssd_row_pointwise(f1, f2, t, dx, dy, y, n - 1);
        assert(pixel_sq_diff(f1, t, dx, dy, n - 1, y) <= pixel_sq_diff(f2, t, dx, dy, n - 1, y));
    }
}

proof fn lemma_ssd_rows_pointwise(
    f1: &LumaRaster, f2: &LumaRaster, t: &LumaRaster, dx: int, dy: int, m: int,
)
    requires
        0 <= m <= t.height,
        forall|x: int, yy: int|
            0 <= x < t.width && 0 <= yy < t.height ==> #[trigger] pixel_sq_diff(
                f1, t, dx, dy, x, yy,
            ) <= pixel_sq_diff(f2, t, dx, dy, x, yy),
    ensures
        ssd_rows(f1, t, dx, dy, m) <= ssd_rows(f2, t, dx, dy, m),
    decreases m,
{
    if m > 0 {
        lemma_ssd_rows_pointwise(f1, f2, t, dx, dy, m - 1);
        lemma_ssd_row_pointwise(f1, f2, t, dx, dy, m - 1, t.width as int);
    }
}

/// Adding noise never lowers a score: if at one alignment every pixel
/// of f2 strays from the template by at least as much as the same
/// pixel of f1, then f2's score at that alignment is at least f1's. In
/// particular a frame perturbed from an exact match can never score
/// below the noiseless score of zero there.
pub proof fn lemma_ssd_noise_monotone(
    f1: &LumaRaster, f2: &LumaRaster, t: &LumaRaster, dx: int, dy: int,
)
    requires
        forall|x: int, y: int|
            0 <= x < t.width && 0 <= y < t.height ==> #[trigger] pixel_dev(f1, t, dx, dy, x, y)
                <= pixel_dev(f2, t, dx, dy, x, y),
    ensures
        ssd_at(f1, t, dx, dy) <= ssd_at(f2, t, dx, dy),
{
    assert forall|x: int, y: int| 0 <= x < t.width && 0 <= y < t.height implies #[trigger]
        pixel_sq_diff(f1, t, dx, dy, x, y) <= pixel_sq_diff(f2, t, dx, dy, x, y) by {
        assert(pixel_dev(f1, t, dx, dy, x, y) <= pixel_dev(f2, t, dx, dy, x, y));
        lemma_sq_monotone(f1.at(dx + x, dy + y) - t.at(x, y), f2.at(dx + x, dy + y) - t.at(x, y));
    }
    lemma_ssd_rows_pointwise(f1, f2, t, dx, dy, t.height as int);
}

} // verus!
