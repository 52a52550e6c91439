//! The console's command grammar and its little progress animation.
//!
//! The console loop itself — prompting, reading, printing — is
//! platform glue; what it decides is here: which command a trimmed
//! input line denotes, and how the "Procesing..." dot counter advances
//! from call to call.

use vstd::prelude::*;

use crate::config::Config;
use crate::text::str_eq;

verus! {

/// What a console input line asks for.
#[derive(Clone, Copy, Debug, PartialEq, Eq, Structural)]
pub enum Command {
    /// Leave the program: `q`, `quit` or `exit`.
    Quit,
    /// An empty line; prompt again.
    Empty,
    /// Print the command list: `h` or `help`.
    Help,
    /// Run the one-shot test: `f`.
    TestOnce,
    /// Run the test loop: `t` or `test`.
    TestLoop,
    /// Start a session with the profile at this index.
    Run(usize),
    /// Anything else; report and ignore.
    Unknown,
}

/// The tokens the console itself consumes, before profiles are tried.
pub open spec fn builtin_token(s: Seq<char>) -> bool {
    ||| s == "q"@
    ||| s == "quit"@
    ||| s == "exit"@
    ||| s == ""@
    ||| s == "h"@
    ||| s == "help"@
    ||| s == "f"@
    ||| s == "t"@
    ||| s == "test"@
}

/// Reads a trimmed input line as a command. Built-in tokens win;
/// otherwise the first profile whose command token equals the line is
/// chosen; anything else is unknown.
#[verifier::loop_isolation(false)]
pub fn parse_command(input: &str, cfgs: &Vec<Config>) -> (c: Command)
    ensures
        c is Quit <==> input@ == "q"@ || input@ == "quit"@ || input@ == "exit"@,
        c is Empty <==> input@ == ""@,
        c is Help <==> input@ == "h"@ || input@ == "help"@,
        c is TestOnce <==> input@ == "f"@,
        c is TestLoop <==> input@ == "t"@ || input@ == "test"@,
        c is Run <==> !builtin_token(input@) && (exists|j: int|
            0 <= j < cfgs@.len() && #[trigger] cfgs@[j].cmd@ == input@),
        c matches Command::Run(i) ==> 0 <= i < cfgs@.len() && cfgs@[i as int].cmd@ == input@
            && forall|j: int| 0 <= j < i ==> #[trigger] cfgs@[j].cmd@ != input@,
        c is Unknown <==> !builtin_token(input@) && (forall|j: int|
            0 <= j < cfgs@.len() ==> #[trigger] cfgs@[j].cmd@ != input@),
{
    proof {
        reveal_strlit("q");
        reveal_strlit("quit");
        reveal_strlit("exit");
        reveal_strlit("");
        reveal_strlit("h");
        reveal_strlit("help");
        reveal_strlit("f");
        reveal_strlit("t");
        reveal_strlit("test");
        assert(""@.len() == 0);
        assert("q"@.len() == 1 && "q"@[0] == 'q');
        assert("h"@.len() == 1 && "h"@[0] == 'h');
        assert("f"@.len() == 1 && "f"@[0] == 'f');
        assert("t"@.len() == 1 && "t"@[0] == 't');
        assert("quit"@.len() == 4 && "quit"@[0] == 'q');
        assert("exit"@.len() == 4 && "exit"@[0] == 'e');
        assert("help"@.len() == 4 && "help"@[0] == 'h');
        assert("test"@.len() == 4 && "test"@[0] == 't');
    }
    if str_eq(input, "q") || str_eq(input, "quit") || str_eq(input, "exit") {
        return Command::Quit;
    }
    if str_eq(input, "") {
        return Command::Empty;
    }
    if str_eq(input, "h") || str_eq(input, "help") {
        return Command::Help;
    }
    if str_eq(input, "f") {
        return Command::TestOnce;
    }
    if str_eq(input, "t") || str_eq(input, "test") {
        return Command::TestLoop;
    }
    let n: usize = cfgs.len();
    let mut i: usize = 0;
    while i < n
        invariant
            n == cfgs@.len(),
            i <= n,
            forall|j: int| 0 <= j < i ==> #[trigger] cfgs@[j].cmd@ != input@,
        decreases n - i,
    {
        if str_eq(cfgs[i].cmd.as_str(), input) {
            return Command::Run(i);
        }
        i = i + 1;
    }
    Command::Unknown
}

/// The most dots the progress line shows before it wraps around.
pub const SPINNER_DOTS: u8 = 5;

/// The progress animation's state: how many dots the next call will
/// print, threaded explicitly through the console loop.
#[derive(Clone, Copy, Debug, PartialEq, Eq, Structural)]
pub struct Spinner {
    pub count: u8,
}

impl Spinner {
    /// A fresh animation, about to print no dots.
    pub fn new() -> (s: Spinner)
        ensures
            s.count == 0,
    {
        Spinner { count: 0 }
    }

    /// One animation frame: returns how many dots to print now and
    /// advances the counter, wrapping to zero past `SPINNER_DOTS`.
    pub fn step(&mut self) -> (dots: u8)
        ensures
            dots == old(self).count,
            final(self).count == if old(self).count + 1 > SPINNER_DOTS {
                0
            } else {
                old(self).count + 1
            },
    {
        let dots: u8 = self.count;
        if self.count >= SPINNER_DOTS {
            self.count = 0;
        } else {
            self.count = self.count + 1;
        }
        dots
    }
}

} // verus!
