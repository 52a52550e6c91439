//! Window location: picking the session's target out of the platform's
//! list of visible top-level windows.

use vstd::prelude::*;

use crate::text::{contains_seq, str_contains};

verus! {

/// One visible top-level window as the platform enumerates it.
pub struct WindowInfo {
    pub hwnd: isize,
    pub title: String,
}

/// The first enumerated window whose title contains the wanted
/// fragment, or None when no title does. Resolved once per session,
/// never re-resolved mid-loop.
pub fn find_window(windows: &Vec<WindowInfo>, fragment: &str) -> (r: Option<usize>)
    ensures
        r matches Some(i) ==> 0 <= i < windows@.len() && contains_seq(
            windows@[i as int].title@,
            fragment@,
        ) && forall|j: int|
            0 <= j < i ==> !contains_seq(#[trigger] windows@[j].title@, fragment@),
        r is None ==> forall|j: int|
            0 <= j < windows@.len() ==> !contains_seq(#[trigger] windows@[j].title@, fragment@),
{
    let n: usize = windows.len();
    let mut i: usize = 0;
    while i < n
        invariant
            n == windows@.len(),
            i <= n,
            forall|j: int| 0 <= j < i ==> !contains_seq(#[trigger] windows@[j].title@, fragment@),
        decreases n - i,
    {
        if str_contains(windows[i].title.as_str(), fragment) {
            return Some(i);
        }
        i = i + 1;
    }
    None
}

} // verus!
