//! Whether the user is asked before each action, and how an answer is read.

use crate::entries::{to_chars, trim_bounds, trimmed};
use vstd::prelude::*;
use vstd::string::*;

verus! {

/// Whether the run asks before it acts.
#[derive(Clone, Copy, Debug, PartialEq, Eq, Structural)]
pub enum UIMode {
    Interactive,
    Silent,
}

/// `Interactive` where the flag is set, `Silent` where it is not.
pub fn get_ui_mode(mode: bool) -> (chosen: UIMode)
    ensures
        chosen == if mode {
            UIMode::Interactive
        } else {
            UIMode::Silent
        },
{
    if mode {
        UIMode::Interactive
    } else {
        UIMode::Silent
    }
}

/// The line that a verbose run prints for `msg`; a quiet run prints none.
pub fn verbose_line(msg: &str, is_verbose: bool) -> (line: Option<String>)
    ensures
        is_verbose ==> line is Some && line->0@ == "[VERBOSE] "@ + msg@,
        !is_verbose ==> line is None,
{
    if is_verbose {
        Some(String::from_str("[VERBOSE] ").concat(msg))
    } else {
        None
    }
}

/// `c` is `letter`, which is a lower-case ASCII letter, in either case.
pub open spec fn is_letter(c: char, letter: char) -> bool {
    c == letter || c as u32 + 32 == letter as u32
}

/// An answer that means yes: nothing at all, `y` or `yes`, in any mix of
/// upper and lower case.
pub open spec fn is_yes(answer: Seq<char>) -> bool {
    ||| answer.len() == 0
    ||| answer.len() == 1 && is_letter(answer[0], 'y')
    ||| answer.len() == 3 && is_letter(answer[0], 'y') && is_letter(answer[1], 'e') && is_letter(
        answer[2],
        's',
    )
}

fn same_letter(c: char, letter: char) -> (same: bool)
    ensures
        same == is_letter(c, letter),
{
    let a: u32 = c as u32;
    let b: u32 = letter as u32;
    c == letter || (a <= 0x10FFFF && a + 32 == b)
}

/// Reads the user's answer to a yes/no question. A silent run asks nothing
/// and takes every answer for yes; an interactive run takes the line typed,
/// without the white space around it, for yes or no.
pub fn prompt_user(reply: &str, mode: UIMode) -> (accepted: bool)
    ensures
        accepted == match mode {
            UIMode::Silent => true,
            UIMode::Interactive => is_yes(trimmed(reply@, 0, reply@.len() as int)),
        },
{
    match mode {
        UIMode::Silent => true,
        UIMode::Interactive => {
            let chars = to_chars(reply);
            let (start, stop) = trim_bounds(&chars, 0, chars.len());
            let len: usize = stop - start;
            if len == 0 {
                true
            } else if len == 1 {
                same_letter(chars[start], 'y')
            } else if len == 3 {
                same_letter(chars[start], 'y') && same_letter(chars[start + 1], 'e') && same_letter(
                    chars[start + 2],
                    's',
                )
            } else {
                false
            }
        },
    }
}

} // verus!
