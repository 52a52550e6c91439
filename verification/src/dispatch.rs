//! Click dispatch as data: the exact sequence of input steps a click
//! turns into, for either of the two strategies.
//!
//! The platform layer runs a plan step by step; the library only
//! builds plans. That keeps the irreversible part — real OS input —
//! behind a value that can be inspected and proved over. The focus
//! bookkeeping of both strategies is captured by `focus_after`: a
//! background plan leaves focus alone, a foreground plan always hands
//! it back to the window that held it before.

use vstd::prelude::*;

verus! {

/// Message number of the set-cursor window message.
pub const WM_SETCURSOR: u32 = 0x20;

/// Message number of the mouse-move window message.
pub const WM_MOUSEMOVE: u32 = 0x200;

/// Message number of the left-button-down window message.
pub const WM_LBUTTONDOWN: u32 = 0x201;

/// Message number of the left-button-up window message.
pub const WM_LBUTTONUP: u32 = 0x202;

/// One primitive the platform performs while dispatching a click.
#[derive(Clone, Copy, Debug, PartialEq, Eq, Structural)]
pub enum InputStep {
    /// Send a window message synchronously.
    SendMessage { hwnd: isize, msg: u32, wparam: usize, lparam: i64 },
    /// Post a window message to the target's queue.
    PostMessage { hwnd: isize, msg: u32, wparam: usize, lparam: i64 },
    /// Make this window the foreground window.
    SetForeground { hwnd: isize },
    /// Move the real cursor to this screen coordinate.
    MoveCursor { x: i32, y: i32 },
    /// Press and release the real left mouse button.
    PressLeftButton,
    /// Pause between steps.
    Sleep { millis: u64 },
}

/// A packed message parameter: the low 16 bits carry `low`, the bits
/// above them carry `high`.
pub open spec fn lparam_value(low: u32, high: u32) -> i64 {
    (low + 0x1_0000 * high) as i64
}

/// Packs two values into one message parameter, as the window message
/// protocol encodes a coordinate pair.
pub fn encode_lparam(low: u32, high: u32) -> (l: i64)
    requires
        low < 0x1_0000,
        high < 0x1_0000,
    ensures
        l == lparam_value(low, high),
{
    let packed: u64 = (low as u64) | ((high as u64) << 16);
    proof {
        assert((low as u64) | ((high as u64) << 16) == (low as u64) + 0x1_0000 * (high as u64))
            by (bit_vector)
            requires
                low < 0x1_0000u64,
                high < 0x1_0000u64,
        ;
    }
    packed as i64
}

/// The window focused once a plan has run, starting from `focused`:
/// only an explicit foreground step moves focus.
pub open spec fn focus_after(plan: Seq<InputStep>, focused: isize) -> isize
    decreases plan.len(),
{
    if plan.len() == 0 {
        focused
    } else {
        match plan.last() {
            InputStep::SetForeground { hwnd } => hwnd,
            _ => focus_after(plan.drop_last(), focused),
        }
    }
}

/// A plan with no foreground step leaves focus where it was.
pub proof fn lemma_no_focus_change(plan: Seq<InputStep>, focused: isize)
    requires
        forall|i: int| 0 <= i < plan.len() ==> !(#[trigger] plan[i] is SetForeground),
    ensures
        focus_after(plan, focused) == focused,
    decreases plan.len(),
{
    if plan.len() > 0 {
        assert(!(plan[plan.len() - 1] is SetForeground));
        assert(forall|i: int|
            0 <= i < plan.drop_last().len() ==> #[trigger] plan.drop_last()[i] == plan[i]);
        lemma_no_focus_change(plan.drop_last(), focused);
    }
}

/// The background click sequence for a client coordinate: cursor-set
/// and mouse messages carrying the packed coordinate, with the pauses
/// between them — and nothing that touches focus.
pub open spec fn background_steps(hwnd: isize, x: u32, y: u32) -> Seq<InputStep> {
    seq![
        (InputStep::SendMessage {
            hwnd,
            msg: WM_SETCURSOR,
            wparam: hwnd as usize,
            lparam: lparam_value(1, WM_MOUSEMOVE),
        }),
        (InputStep::PostMessage {
            hwnd,
            msg: WM_MOUSEMOVE,
            wparam: 1,
            lparam: lparam_value(x, y),
        }),
        (InputStep::Sleep { millis: 100 }),
        (InputStep::SendMessage {
            hwnd,
            msg: WM_SETCURSOR,
            wparam: hwnd as usize,
            lparam: lparam_value(1, WM_LBUTTONDOWN),
        }),
        (InputStep::PostMessage {
            hwnd,
            msg: WM_LBUTTONDOWN,
            wparam: 1,
            lparam: lparam_value(x, y),
        }),
        (InputStep::Sleep { millis: 100 }),
        (InputStep::PostMessage {
            hwnd,
            msg: WM_LBUTTONUP,
            wparam: 1,
            lparam: lparam_value(x, y),
        }),
    ]
}

/// The foreground click sequence: focus the target, move the real
/// cursor to the client coordinate offset by the client area's screen
/// origin, click, and hand focus back to the window that had it.
pub open spec fn foreground_steps(
    hwnd: isize, screen_x: i32, screen_y: i32, prev_focus: isize,
) -> Seq<InputStep> {
    seq![
        (InputStep::SetForeground { hwnd }),
        (InputStep::Sleep { millis: 10 }),
        (InputStep::MoveCursor { x: screen_x, y: screen_y }),
        (InputStep::PressLeftButton {}),
        (InputStep::Sleep { millis: 100 }),
        (InputStep::SetForeground { hwnd: prev_focus }),
    ]
}

/// Background dispatch never changes which window holds focus:
/// whatever was focused before the plan runs is focused after it.
pub proof fn lemma_background_keeps_focus(hwnd: isize, x: u32, y: u32, focused: isize)
    ensures
        focus_after(background_steps(hwnd, x, y), focused) == focused,
{
    let plan = background_steps(hwnd, x, y);
    assert(forall|i: int| 0 <= i < plan.len() ==> !(#[trigger] plan[i] is SetForeground));
    lemma_no_focus_change(plan, focused);
}

/// Foreground dispatch always restores the previously focused window
/// once its click sequence completes, whatever held focus when the
/// plan started.
pub proof fn lemma_foreground_restores_focus(
    hwnd: isize, screen_x: i32, screen_y: i32, prev_focus: isize, focused: isize,
)
    ensures
        focus_after(foreground_steps(hwnd, screen_x, screen_y, prev_focus), focused)
            == prev_focus,
{
}

/// Builds the background click plan.
pub fn background_click_plan(hwnd: isize, x: u32, y: u32) -> (p: Vec<InputStep>)
    requires
        x < 0x1_0000,
        y < 0x1_0000,
    ensures
        p@ == background_steps(hwnd, x, y),
{
    let lmmv: i64 = encode_lparam(1, WM_MOUSEMOVE);
    let lmbd: i64 = encode_lparam(1, WM_LBUTTONDOWN);
    let lpos: i64 = encode_lparam(x, y);
    let mut p: Vec<InputStep> = Vec::new();
    p.push(InputStep::SendMessage {
        hwnd,
        msg: WM_SETCURSOR,
        wparam: hwnd as usize,
        lparam: lmmv,
    });
    p.push(InputStep::PostMessage { hwnd, msg: WM_MOUSEMOVE, wparam: 1, lparam: lpos });
    p.push(InputStep::Sleep { millis: 100 });
    p.push(InputStep::SendMessage {
        hwnd,
        msg: WM_SETCURSOR,
        wparam: hwnd as usize,
        lparam: lmbd,
    });
    p.push(InputStep::PostMessage { hwnd, msg: WM_LBUTTONDOWN, wparam: 1, lparam: lpos });
    p.push(InputStep::Sleep { millis: 100 });
    p.push(InputStep::PostMessage { hwnd, msg: WM_LBUTTONUP, wparam: 1, lparam: lpos });
    proof {
        assert(p@ =~= background_steps(hwnd, x, y));
    }
    p
}

/// Builds the foreground click plan: the click target in client
/// coordinates is offset by the client area's screen origin, as read
/// from the window's rectangle just before dispatch.
pub fn foreground_click_plan(
    hwnd: isize, x: i32, y: i32, prev_focus: isize, client_left: i32, client_top: i32,
) -> (p: Vec<InputStep>)
    requires
        i32::MIN <= client_left + x <= i32::MAX,
        i32::MIN <= client_top + y <= i32::MAX,
    ensures
        p@ == foreground_steps(hwnd, (client_left + x) as i32, (client_top + y) as i32, prev_focus),
{
    let sx: i32 = client_left + x;
    let sy: i32 = client_top + y;
    let mut p: Vec<InputStep> = Vec::new();
    p.push(InputStep::SetForeground { hwnd });
    p.push(InputStep::Sleep { millis: 10 });
    p.push(InputStep::MoveCursor { x: sx, y: sy });
    p.push(InputStep::PressLeftButton {});
    p.push(InputStep::Sleep { millis: 100 });
    p.push(InputStep::SetForeground { hwnd: prev_focus });
    proof {
        assert(p@ =~= foreground_steps(hwnd, (client_left + x) as i32, (client_top + y) as i32, prev_focus));
    }
    p
}

/// Picks the strategy a profile's foreground flag calls for and builds
/// that plan, exactly as the two plan builders describe it.
pub fn click_plan(
    hwnd: isize,
    x: u32,
    y: u32,
    background: bool,
    prev_focus: isize,
    client_left: i32,
    client_top: i32,
) -> (p: Vec<InputStep>)
    requires
        x < 0x1_0000,
        y < 0x1_0000,
        i32::MIN <= client_left + x <= i32::MAX,
        i32::MIN <= client_top + y <= i32::MAX,
    ensures
        background ==> p@ == background_steps(hwnd, x, y),
        !background ==> p@ == foreground_steps(
            hwnd,
            (client_left + x) as i32,
            (client_top + y) as i32,
            prev_focus,
        ),
{
    if background {
        background_click_plan(hwnd, x, y)
    } else {
        foreground_click_plan(hwnd, x as i32, y as i32, prev_focus, client_left, client_top)
    }
}

} // verus!
