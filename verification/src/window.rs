//! What the windows of the shell do: which window shows a command's log,
//! and how the main window answers the tray and a second start.

use vstd::prelude::*;
use vstd::string::*;
use crate::command_runner::viewer_label;
use crate::text::{decimal, digit_char, push_decimal, str_eq};

verus! {

// ---------------------------------------------------------------------------
// The log window
// ---------------------------------------------------------------------------

/// The label of the window that shows the log of `command_id`.
pub fn log_window_label(command_id: i64) -> (r: String)
    ensures
        r@ == viewer_label(command_id),
{
    let mut s = String::from_str("log-");
    push_decimal(&mut s, command_id);
    s
}

/// A byte that percent-encoding leaves as it is: an ASCII letter or digit,
/// or one of `-`, `.`, `_`, `~`.
pub open spec fn is_unreserved(b: u8) -> bool {
    ||| 0x30 <= b <= 0x39
    ||| 0x41 <= b <= 0x5A
    ||| 0x61 <= b <= 0x7A
    ||| b == 0x2D
    ||| b == 0x2E
    ||| b == 0x5F
    ||| b == 0x7E
}

/// The character that writes a hexadecimal digit, in upper case.
pub open spec fn hex_char(d: int) -> char {
    if d < 10 {
        digit_char(d)
    } else if d == 10 {
        'A'
    } else if d == 11 {
        'B'
    } else if d == 12 {
        'C'
    } else if d == 13 {
        'D'
    } else if d == 14 {
        'E'
    } else {
        'F'
    }
}

/// Percent-encoding of a sequence of bytes: an unreserved byte stands for
/// itself, every other byte is written as `%` and its two hexadecimal
/// digits.
pub open spec fn percent_encode(bytes: Seq<u8>) -> Seq<char>
    decreases bytes.len(),
{
    if bytes.len() == 0 {
        Seq::empty()
    } else {
        let b = bytes.last();
        if is_unreserved(b) {
            percent_encode(bytes.drop_last()).push(b as char)
        } else {
            percent_encode(bytes.drop_last()).push('%').push(hex_char(b as int / 16)).push(
                hex_char(b as int % 16),
            )
        }
    }
}

/// Percent-encodes a text for use in a URL: wraps `urlencoding::encode`,
/// which encodes every byte of the text's UTF-8 form except ASCII letters,
/// digits and `-`, `.`, `_`, `~`, with upper-case hexadecimal digits.
#[verifier::external_body]
fn url_encode(s: &str) -> (r: String)
    ensures
        r@ == percent_encode(vstd::utf8::encode_utf8(s@)),
{
    urlencoding::encode(s).into_owned()
}

/// The address that the log window of a command opens: the route of the
/// log view with the command's id, and the command's name as a
/// percent-encoded query value.
pub open spec fn log_url(command_id: i64, command_name: Seq<char>) -> Seq<char> {
    "/#/log/"@ + decimal(command_id as int) + "?name="@ + percent_encode(
        vstd::utf8::encode_utf8(command_name),
    )
}

/// The address that the log window of a command opens.
pub fn log_window_url(command_id: i64, command_name: &str) -> (r: String)
    ensures
        r@ == log_url(command_id, command_name@),
{
    let mut s = String::from_str("/#/log/");
    push_decimal(&mut s, command_id);
    s.append("?name=");
    let encoded = url_encode(command_name);
    s.append(encoded.as_str());
    s
}

// ---------------------------------------------------------------------------
// The main window
// ---------------------------------------------------------------------------

/// What to do with the main window; the steps are taken in the order of
/// the fields, and each only where its field is set.
#[derive(Debug, Clone, Copy, PartialEq, Eq, Structural)]
pub struct WindowPlan {
    /// Hide the window.
    pub hide: bool,
    /// Restore the window from its minimised state.
    pub unminimize: bool,
    /// Show the window.
    pub show: bool,
    /// Give the window the focus.
    pub focus: bool,
}

/// What a window is known to be where it was asked and answered, and
/// `default` where it was not.
pub open spec fn known_or(answer: Option<bool>, default: bool) -> bool {
    match answer {
        Some(b) => b,
        None => default,
    }
}

fn answer_or(answer: Option<bool>, default: bool) -> (r: bool)
    ensures
        r == known_or(answer, default),
{
    match answer {
        Some(b) => b,
        None => default,
    }
}

/// Bringing a window to the front: restored where it is minimised, shown
/// where it is hidden, and focused.
pub open spec fn brought_to_front(visible: bool, minimized: bool) -> WindowPlan {
    WindowPlan { hide: false, unminimize: minimized, show: !visible, focus: true }
}

/// The answer to the tray menu's show and hide entry: a window that is
/// visible and not minimised is hidden, any other is brought to the front.
/// A state that could not be asked counts as not visible and not minimised.
pub fn toggle_main_window(is_visible: Option<bool>, is_minimized: Option<bool>) -> (r: WindowPlan)
    ensures
        r == if known_or(is_visible, false) && !known_or(is_minimized, false) {
            WindowPlan { hide: true, unminimize: false, show: false, focus: false }
        } else {
            brought_to_front(known_or(is_visible, false), known_or(is_minimized, false))
        },
{
    let visible = answer_or(is_visible, false);
    let minimized = answer_or(is_minimized, false);
    if visible && !minimized {
        WindowPlan { hide: true, unminimize: false, show: false, focus: false }
    } else {
        WindowPlan { hide: false, unminimize: minimized, show: !visible, focus: true }
    }
}

/// The answer to a click on the tray icon: the window is brought to the
/// front. A state that could not be asked counts as not visible and not
/// minimised.
pub fn reveal_main_window(is_visible: Option<bool>, is_minimized: Option<bool>) -> (r: WindowPlan)
    ensures
        r == brought_to_front(known_or(is_visible, false), known_or(is_minimized, false)),
{
    let visible = answer_or(is_visible, false);
    let minimized = answer_or(is_minimized, false);
    WindowPlan { hide: false, unminimize: minimized, show: !visible, focus: true }
}

/// The answer to a second start of the application: the window of the
/// first is brought to the front. A visibility that could not be asked
/// counts as visible, a minimised state that could not be asked as not
/// minimised.
pub fn activate_main_window(is_visible: Option<bool>, is_minimized: Option<bool>) -> (r:
    WindowPlan)
    ensures
        r == brought_to_front(known_or(is_visible, true), known_or(is_minimized, false)),
{
    let visible = answer_or(is_visible, true);
    let minimized = answer_or(is_minimized, false);
    WindowPlan { hide: false, unminimize: minimized, show: !visible, focus: true }
}

/// What an entry of the tray menu asks for.
#[derive(Debug, Clone, Copy, PartialEq, Eq, Structural)]
pub enum TrayAction {
    /// Show or hide the main window.
    Toggle,
    /// Quit the application.
    Quit,
    /// Nothing.
    Ignore,
}

/// What the tray menu entry with the id `id` asks for: `show` toggles the
/// main window, `quit` quits, any other id is ignored.
pub fn tray_menu_action(id: &str) -> (r: TrayAction)
    ensures
        r == if id@ == "show"@ {
            TrayAction::Toggle
        } else if id@ == "quit"@ {
            TrayAction::Quit
        } else {
            TrayAction::Ignore
        },
{
    if str_eq(id, "show") {
        TrayAction::Toggle
    } else if str_eq(id, "quit") {
        TrayAction::Quit
    } else {
        TrayAction::Ignore
    }
}

} // verus!
