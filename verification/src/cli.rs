//! Command-line flags, display-server detection and the start-up decisions.

use vstd::prelude::*;
use crate::text::{chars_of, contains_text, same_text};

verus! {

/// Parsed command-line flags. Unknown arguments are ignored.
#[derive(Debug, Clone, Copy, PartialEq, Eq, Structural)]
pub struct CliArgs {
    /// Standalone test mode: run without the plugin's session variable.
    pub dev: bool,
    /// Control invocation: show or hide the window of the running instance.
    pub toggle: bool,
}

impl Default for CliArgs {
    fn default() -> (r: Self)
        ensures
            !r.dev,
            !r.toggle,
    {
        CliArgs { dev: false, toggle: false }
    }
}

/// Whether some argument is exactly `flag`.
pub open spec fn has_flag(args: Seq<String>, flag: Seq<char>) -> bool {
    exists|i: int| 0 <= i < args.len() && #[trigger] args[i]@ == flag
}

/// Reads `--dev` and `--toggle` from the arguments (the program name
/// excluded); every other argument is ignored.
pub fn parse_args_from(args: Vec<String>) -> (r: CliArgs)
    ensures
        r.dev == has_flag(args@, "--dev"@),
        r.toggle == has_flag(args@, "--toggle"@),
{
    let dev = contains_text(&args, "--dev");
    let toggle = contains_text(&args, "--toggle");
    CliArgs { dev, toggle }
}

/// ASCII lowercasing of one character.
pub open spec fn ascii_lower(c: char) -> char {
    if 'A' <= c && c <= 'Z' {
        ((c as u32) + 32) as char
    } else {
        c
    }
}

/// Whether `needle` stands in `hay` at position `i` once `hay` is lowercased.
pub open spec fn lowered_match_at(hay: Seq<char>, needle: Seq<char>, i: int) -> bool {
    0 <= i && i + needle.len() <= hay.len() && forall|k: int|
        0 <= k < needle.len() ==> ascii_lower(#[trigger] hay[i + k]) == needle[k]
}

/// Whether `needle` occurs in `hay` once `hay` is lowercased.
pub open spec fn contains_lowered(hay: Seq<char>, needle: Seq<char>) -> bool {
    exists|i: int| #[trigger] lowered_match_at(hay, needle, i)
}

/// The word that marks a Wayland session type.
pub open spec fn wayland_word() -> Seq<char> {
    seq!['w', 'a', 'y', 'l', 'a', 'n', 'd']
}

/// A Wayland session: the session type, lowercased, contains "wayland", or
/// the Wayland display is set to a non-empty value.
///
/// Unicode lowercasing sends no character outside ASCII to one of the
/// letters of "wayland", so lowercasing ASCII letters alone decides whether
/// the word occurs.
pub open spec fn wayland_session(
    xdg_session_type: Option<Seq<char>>,
    wayland_display: Option<Seq<char>>,
) -> bool {
    (xdg_session_type matches Some(t) && contains_lowered(t, wayland_word()))
        || (wayland_display matches Some(d) && d.len() > 0)
}

/// Whether `c`, lowercased, is `l`.
fn lowers_to(c: char, l: char) -> (r: bool)
    requires
        'a' <= l && l <= 'z',
    ensures
        r == (ascii_lower(c) == l),
{
    if 'A' <= c && c <= 'Z' {
        (c as u32) + 32 == (l as u32)
    } else {
        c == l
    }
}

/// Whether the lowered text `hay` contains the lowercase ASCII word `needle`.
fn contains_lowered_exec(hay: &Vec<char>, needle: &Vec<char>) -> (r: bool)
    requires
        needle@.len() > 0,
        forall|k: int| 0 <= k < needle@.len() ==> 'a' <= #[trigger] needle@[k] && needle@[k] <= 'z',
    ensures
        r == contains_lowered(hay@, needle@),
{
    if needle.len() > hay.len() {
        return false;
    }
    let last = hay.len() - needle.len();
    let mut i: usize = 0;
    while i <= last
        invariant
            last + needle@.len() == hay@.len(),
            hay@.len() == hay.len(),
            needle@.len() > 0,
            0 <= i <= last + 1,
            forall|k: int| 0 <= k < needle@.len() ==> 'a' <= #[trigger] needle@[k] && needle@[k] <= 'z',
            forall|j: int| 0 <= j < i ==> !#[trigger] lowered_match_at(hay@, needle@, j),
        decreases last + 1 - i,
    {
        let mut k: usize = 0;
        let mut all = true;
        while k < needle.len()
            invariant
                i <= last,
                last + needle@.len() == hay@.len(),
                hay@.len() == hay.len(),
                0 <= k <= needle@.len(),
                forall|m: int| 0 <= m < needle@.len() ==> 'a' <= #[trigger] needle@[m] && needle@[m] <= 'z',
                all == (forall|m: int| 0 <= m < k ==> ascii_lower(#[trigger] hay@[i + m]) == needle@[m]),
            decreases needle.len() - k,
        {
            if !lowers_to(hay[i + k], needle[k]) {
                all = false;
            }
            k = k + 1;
        }
        if all {
            assert(lowered_match_at(hay@, needle@, i as int));
            return true;
        }
        i = i + 1;
    }
    proof {
        if contains_lowered(hay@, needle@) {
            let j = choose|j: int| #[trigger] lowered_match_at(hay@, needle@, j);
            assert(j < i);
        }
    }
    false
}

/// Wayland detection from the values of `XDG_SESSION_TYPE` and
/// `WAYLAND_DISPLAY` (`None` where unset).
pub fn is_wayland_from(xdg_session_type: Option<&str>, wayland_display: Option<&str>) -> (r: bool)
    ensures
        r == wayland_session(
            match xdg_session_type { Some(t) => Some(t@), None => None },
            match wayland_display { Some(d) => Some(d@), None => None },
        ),
        (xdg_session_type matches Some(t) && contains_lowered(t@, wayland_word())) ==> r,
        (wayland_display matches Some(d) && d@.len() > 0) ==> r,
        r ==> (xdg_session_type matches Some(t) && contains_lowered(t@, wayland_word()))
            || (wayland_display matches Some(d) && d@.len() > 0),
{
    let by_type = match xdg_session_type {
        Some(t) => {
            let hay = chars_of(t);
            let needle: Vec<char> = vec!['w', 'a', 'y', 'l', 'a', 'n', 'd'];
            assert(needle@ =~= wayland_word());
            contains_lowered_exec(&hay, &needle)
        },
        None => false,
    };
    let by_display = match wayland_display {
        Some(d) => !d.is_empty(),
        None => false,
    };
    by_type || by_display
}

/// Lowercasing moves exactly the letters `A`..`Z`, each to its lowercase
/// letter, and leaves every other character as it is.
pub proof fn law_ascii_lower(c: char)
    ensures
        'A' <= c && c <= 'Z' ==> ascii_lower(c) as u32 == (c as u32) + 32,
        !('A' <= c && c <= 'Z') ==> ascii_lower(c) == c,
{
}

/// Either signal alone makes a Wayland session, whatever the other says,
/// and without either the session is not a Wayland one.
pub proof fn law_wayland_either_signal(t: Option<Seq<char>>, d: Option<Seq<char>>)
    ensures
        (t matches Some(x) && contains_lowered(x, wayland_word())) ==> wayland_session(t, d),
        (d matches Some(y) && y.len() > 0) ==> wayland_session(t, d),
        !(t matches Some(x) && contains_lowered(x, wayland_word())) && !(d matches Some(y) && y.len() > 0)
            ==> !wayland_session(t, d),
{
}

/// An X11 session is any session that is not a Wayland one.
pub fn is_x11(xdg_session_type: Option<&str>, wayland_display: Option<&str>) -> (r: bool)
    ensures
        r == !wayland_session(
            match xdg_session_type { Some(t) => Some(t@), None => None },
            match wayland_display { Some(d) => Some(d@), None => None },
        ),
{
    !is_wayland_from(xdg_session_type, wayland_display)
}

/// The session this instance is pinned to: the variable's value, unless it
/// is unset or empty.
pub fn pinned_session_id(raw: Option<String>) -> (r: Option<String>)
    ensures
        r == match raw {
            Some(s) => if s@.len() > 0 { Some(s) } else { None },
            None => None,
        },
{
    match raw {
        Some(s) => if s.as_str().is_empty() { None } else { Some(s) },
        None => None,
    }
}

/// Without a pinned session an instance may only run in test mode or as a
/// toggle control; any other start is a misuse that ends the program.
pub fn must_exit_without_session(session_id: &Option<String>, args: CliArgs) -> (r: bool)
    ensures
        r == (session_id is None && !args.dev && !args.toggle),
{
    session_id.is_none() && !args.dev && !args.toggle
}

/// Whether a second invocation's arguments ask the running instance to
/// show or hide its window.
pub fn argv_requests_toggle(argv: &Vec<String>) -> (r: bool)
    ensures
        r == has_flag(argv@, "--toggle"@),
{
    contains_text(argv, "--toggle")
}

/// What toggling the main window does.
#[derive(Debug, Clone, Copy, PartialEq, Eq, Structural)]
pub enum WindowToggle {
    /// Hide the visible window.
    Hide,
    /// Show the window and ask the frontend to open and focus the prompt input.
    ShowAndFocusPrompt,
}

/// The toggle decision from the window's visibility (`None` when it could
/// not be queried, which counts as hidden).
pub fn toggle_action(visible: Option<bool>) -> (r: WindowToggle)
    ensures
        r == (if visible == Some(true) { WindowToggle::Hide } else { WindowToggle::ShowAndFocusPrompt }),
{
    match visible {
        Some(true) => WindowToggle::Hide,
        _ => WindowToggle::ShowAndFocusPrompt,
    }
}

} // verus!
