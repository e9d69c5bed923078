//! Glob patterns, compiled and matched by the `glob` crate.
//!
//! Nothing here is proved: each contract says what the crate's source shows,
//! over three names for what its functions return.

use vstd::prelude::*;

verus! {

#[verifier::external_type_specification]
#[verifier::external_body]
pub struct ExPattern(glob::Pattern);

/// Why a pattern did not compile: the character index near the fault, and
/// the crate's message.
#[derive(Debug)]
pub struct PatternFault {
    pub pos: usize,
    pub message: String,
}

/// What `glob::Pattern::new` finds wrong with `text`: the position and the
/// message of its error, or `None` where the text compiles.
pub uninterp spec fn glob_fault(text: Seq<char>) -> Option<(int, Seq<char>)>;

/// The text a pattern was compiled from, as `glob::Pattern::as_str` gives it.
pub uninterp spec fn pattern_text(pattern: glob::Pattern) -> Seq<char>;

/// Whether the pattern compiled from `pattern` matches the whole of `name`,
/// as `glob::Pattern::matches` decides it with the crate's default options.
pub uninterp spec fn glob_matches(pattern: Seq<char>, name: Seq<char>) -> bool;

/// Calls `glob::Pattern::new`.
///
/// Trusted: compiling is a function of the text alone; a compiled pattern
/// keeps the text it came from; an error carries a position and a message.
#[verifier::external_body]
pub(crate) fn compile_glob(text: &str) -> (compiled: Result<glob::Pattern, PatternFault>)
    ensures
        match compiled {
            Ok(pattern) => glob_fault(text@) is None && pattern_text(pattern) == text@,
            Err(fault) => glob_fault(text@) == Some((fault.pos as int, fault.message@)),
        },
{
    match glob::Pattern::new(text) {
        Ok(pattern) => Ok(pattern),
        Err(e) => Err(PatternFault { pos: e.pos, message: e.msg.to_string() }),
    }
}

/// `glob::Pattern::as_str` hands back the text the pattern was compiled from.
pub assume_specification<'a>[ glob::Pattern::as_str ](pattern: &'a glob::Pattern) -> (text:
    &'a str)
    ensures
        text@ == pattern_text(*pattern),
;

/// `glob::Pattern::matches` depends on the pattern's text and on the string
/// alone: a pattern's tokens are made from its text and from nothing else.
pub assume_specification[ glob::Pattern::matches ](pattern: &glob::Pattern, name: &str) -> (hit:
    bool)
    ensures
        hit == glob_matches(pattern_text(*pattern), name@),
;

} // verus!
