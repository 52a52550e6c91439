//! Profiles and window geometry.
//!
//! A `Config` is one action profile: which window to drive, the client
//! size to give it, how to click, where its templates live, and the
//! score thresholds of the match decision. `ConfigData` is the ordered
//! list of profiles the console chooses from. The geometry helpers
//! translate between a window's outer rectangle and its client area,
//! which differ by fixed OS chrome padding.

use vstd::prelude::*;

verus! {

/// Horizontal chrome padding: outer width minus client width.
pub const WINPAD_X: i32 = 16;

/// Vertical chrome padding: outer height minus client height.
pub const WINPAD_Y: i32 = 39;

/// Score thresholds are given in thousandths of squared unit
/// luminance, so a profile can hold values such as 3.0 and 8.0 exactly
/// as 3000 and 8000.
pub const DEFAULT_LOW_MILLI: u64 = 3_000;

/// Default upper threshold: the near-match band ends at 8.0.
pub const DEFAULT_HIGH_MILLI: u64 = 8_000;

/// One action profile.
#[derive(Clone)]
pub struct Config {
    /// Console token that starts a session with this profile.
    pub cmd: String,
    /// Substring of the target window's title.
    pub window_name: String,
    /// Client width the window is resized to before the loop runs.
    pub client_width: i32,
    /// Client height the window is resized to before the loop runs.
    pub client_height: i32,
    /// True to click by focusing the window, false to post background
    /// messages without taking focus.
    pub foreground: bool,
    /// Display name.
    pub alias: String,
    /// Template directory name.
    pub match_pic_path: String,
    /// Confident-match threshold, in thousandths of squared unit
    /// luminance: scores strictly below it dispatch a click.
    pub low_milli: u64,
    /// Near-match threshold: scores below it (but not below the low
    /// one) are reported without an action.
    pub high_milli: u64,
}

impl Default for Config {
    /// An empty profile with the stock 3.0 / 8.0 thresholds.
    fn default() -> (c: Config)
        ensures
            c.cmd@.len() == 0,
            c.window_name@.len() == 0,
            c.client_width == 0,
            c.client_height == 0,
            !c.foreground,
            c.alias@.len() == 0,
            c.match_pic_path@.len() == 0,
            c.low_milli == DEFAULT_LOW_MILLI,
            c.high_milli == DEFAULT_HIGH_MILLI,
    {
        Config {
            cmd: String::new(),
            window_name: String::new(),
            client_width: 0,
            client_height: 0,
            foreground: false,
            alias: String::new(),
            match_pic_path: String::new(),
            low_milli: DEFAULT_LOW_MILLI,
            high_milli: DEFAULT_HIGH_MILLI,
        }
    }
}

/// The ordered list of profiles a console session chooses from.
pub struct ConfigData {
    pub cfgs: Vec<Config>,
}

/// Outer window size that yields the wanted client size once the OS
/// draws its chrome, or None when the padded size does not fit `i32`.
pub fn outer_window_size(client_width: i32, client_height: i32) -> (r: Option<(i32, i32)>)
    ensures
        r is Some <==> client_width + WINPAD_X <= i32::MAX && client_height + WINPAD_Y
            <= i32::MAX,
        r matches Some(wh) ==> wh.0 == client_width + WINPAD_X && wh.1 == client_height
            + WINPAD_Y,
{
    match client_width.checked_add(WINPAD_X) {
        Some(w) => match client_height.checked_add(WINPAD_Y) {
            Some(h) => Some((w, h)),
            None => None,
        },
        None => None,
    }
}

/// Client size of a window whose outer rectangle spans `left..right`
/// and `top..bottom`, with the chrome padding taken back off, or None
/// when a difference leaves `i32`.
pub fn client_size_of_rect(left: i32, top: i32, right: i32, bottom: i32) -> (r: Option<(i32, i32)>)
    ensures
        r is Some <==> i32::MIN <= right - left - WINPAD_X <= i32::MAX && i32::MIN <= bottom - top
            - WINPAD_Y <= i32::MAX && i32::MIN <= right - left <= i32::MAX && i32::MIN <= bottom
            - top <= i32::MAX,
        r matches Some(wh) ==> wh.0 == right - left - WINPAD_X && wh.1 == bottom - top - WINPAD_Y,
{
    match (right.checked_sub(left), bottom.checked_sub(top)) {
        (Some(w), Some(h)) => match (w.checked_sub(WINPAD_X), h.checked_sub(WINPAD_Y)) {
            (Some(cw), Some(ch)) => Some((cw, ch)),
            _ => None,
        },
        _ => None,
    }
}

} // verus!
