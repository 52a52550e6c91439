use matchclick::config::Config;
use matchclick::console::{parse_command, Command, Spinner};
use matchclick::dispatch::{
    background_click_plan, click_plan, encode_lparam, foreground_click_plan, InputStep,
    WM_LBUTTONDOWN, WM_LBUTTONUP, WM_MOUSEMOVE, WM_SETCURSOR,
};
use matchclick::listener::{
    console_key_clears_flag, listener_step, ListenKey, ListenerAction, ListenerState,
};
use matchclick::locator::{find_window, WindowInfo};
use matchclick::text::{str_contains, str_eq};

fn profile(cmd: &str) -> Config {
    let mut c = Config::default();
    c.cmd = cmd.to_string();
    c
}

#[test]
fn builtin_tokens_parse() {
    let cfgs = vec![profile("mc")];
    assert_eq!(parse_command("q", &cfgs), Command::Quit);
    assert_eq!(parse_command("quit", &cfgs), Command::Quit);
    assert_eq!(parse_command("exit", &cfgs), Command::Quit);
    assert_eq!(parse_command("", &cfgs), Command::Empty);
    assert_eq!(parse_command("h", &cfgs), Command::Help);
    assert_eq!(parse_command("help", &cfgs), Command::Help);
    assert_eq!(parse_command("f", &cfgs), Command::TestOnce);
    assert_eq!(parse_command("t", &cfgs), Command::TestLoop);
    assert_eq!(parse_command("test", &cfgs), Command::TestLoop);
}

#[test]
fn profile_tokens_parse_first_match() {
    let cfgs = vec![profile("mc"), profile("rs"), profile("mc")];
    assert_eq!(parse_command("mc", &cfgs), Command::Run(0));
    assert_eq!(parse_command("rs", &cfgs), Command::Run(1));
    assert_eq!(parse_command("nope", &cfgs), Command::Unknown);
}

#[test]
fn spinner_wraps_after_five_dots() {
    let mut s = Spinner::new();
    let printed: Vec<u8> = (0..8).map(|_| s.step()).collect();
    assert_eq!(printed, vec![0, 1, 2, 3, 4, 5, 0, 1]);
}

#[test]
fn shift_q_clears_the_flag() {
    let st = ListenerState { shift_held: false };
    let (st, act) = listener_step(st, ListenKey::Shift, true);
    assert_eq!(act, ListenerAction::Nothing);
    assert!(st.shift_held);
    let (st, act) = listener_step(st, ListenKey::KeyQ, true);
    assert_eq!(act, ListenerAction::ClearFlag);
    let (st, act) = listener_step(st, ListenKey::Shift, false);
    assert_eq!(act, ListenerAction::Nothing);
    assert!(!st.shift_held);
    let (_, act) = listener_step(st, ListenKey::KeyQ, true);
    assert_eq!(act, ListenerAction::Nothing);
}

#[test]
fn function_keys_fire_debug_buttons() {
    let st = ListenerState { shift_held: false };
    let (_, act) = listener_step(st, ListenKey::F9, true);
    assert_eq!(act, ListenerAction::LeftButtonDown);
    let (_, act) = listener_step(st, ListenKey::F10, true);
    assert_eq!(act, ListenerAction::RightButtonDown);
    let (_, act) = listener_step(st, ListenKey::F9, false);
    assert_eq!(act, ListenerAction::Nothing);
}

#[test]
fn escape_stops_the_console_wait() {
    assert!(console_key_clears_flag(ListenKey::Escape));
    assert!(!console_key_clears_flag(ListenKey::KeyQ));
}

#[test]
fn lparam_packs_low_and_high() {
    assert_eq!(encode_lparam(2, 3), 2 + 3 * 0x1_0000);
    assert_eq!(encode_lparam(0xFFFF, 0xFFFF), 0xFFFF + 0xFFFF * 0x1_0000);
    assert_eq!(encode_lparam(0, 0), 0);
}

#[test]
fn background_plan_posts_the_click_sequence() {
    let p = background_click_plan(7, 2, 3);
    let lpos = 2 + 3 * 0x1_0000;
    assert_eq!(
        p,
        vec![
            InputStep::SendMessage {
                hwnd: 7,
                msg: WM_SETCURSOR,
                wparam: 7,
                lparam: 1 + (WM_MOUSEMOVE as i64) * 0x1_0000,
            },
            InputStep::PostMessage { hwnd: 7, msg: WM_MOUSEMOVE, wparam: 1, lparam: lpos },
            InputStep::Sleep { millis: 100 },
            InputStep::SendMessage {
                hwnd: 7,
                msg: WM_SETCURSOR,
                wparam: 7,
                lparam: 1 + (WM_LBUTTONDOWN as i64) * 0x1_0000,
            },
            InputStep::PostMessage { hwnd: 7, msg: WM_LBUTTONDOWN, wparam: 1, lparam: lpos },
            InputStep::Sleep { millis: 100 },
            InputStep::PostMessage { hwnd: 7, msg: WM_LBUTTONUP, wparam: 1, lparam: lpos },
        ]
    );
    // No step touches focus.
    assert!(p.iter().all(|s| !matches!(s, InputStep::SetForeground { .. })));
}

#[test]
fn foreground_plan_restores_previous_focus() {
    let p = foreground_click_plan(7, 10, 20, 99, 100, 200);
    assert_eq!(
        p,
        vec![
            InputStep::SetForeground { hwnd: 7 },
            InputStep::Sleep { millis: 10 },
            InputStep::MoveCursor { x: 110, y: 220 },
            InputStep::PressLeftButton,
            InputStep::Sleep { millis: 100 },
            InputStep::SetForeground { hwnd: 99 },
        ]
    );
    // The last focus change hands focus back to the previous window.
    let last_focus = p.iter().rev().find_map(|s| match s {
        InputStep::SetForeground { hwnd } => Some(*hwnd),
        _ => None,
    });
    assert_eq!(last_focus, Some(99));
}

#[test]
fn click_plan_selects_the_strategy() {
    let bg = click_plan(7, 2, 3, true, 99, 0, 0);
    assert_eq!(bg, background_click_plan(7, 2, 3));
    let fg = click_plan(7, 2, 3, false, 99, 100, 200);
    assert_eq!(fg, foreground_click_plan(7, 2, 3, 99, 100, 200));
}

#[test]
fn string_predicates() {
    assert!(str_eq("", ""));
    assert!(str_eq("abc", "abc"));
    assert!(!str_eq("abc", "abd"));
    assert!(!str_eq("abc", "ab"));
    assert!(str_contains("hello world", "o w"));
    assert!(str_contains("hello", "hello"));
    assert!(str_contains("hello", ""));
    assert!(!str_contains("", "a"));
    assert!(!str_contains("hello", "world"));
    assert!(str_contains("窗口标题", "口标"));
}

#[test]
fn find_window_takes_first_title_containing_fragment() {
    let windows = vec![
        WindowInfo { hwnd: 1, title: "Notepad".to_string() },
        WindowInfo { hwnd: 2, title: "My Minecraft Window".to_string() },
        WindowInfo { hwnd: 3, title: "Minecraft Launcher".to_string() },
    ];
    assert_eq!(find_window(&windows, "Minecraft"), Some(1));
    assert_eq!(find_window(&windows, "Notepad"), Some(0));
    assert_eq!(find_window(&windows, "xyz"), None);
    assert_eq!(find_window(&windows, ""), Some(0));
}
