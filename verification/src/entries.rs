//! The text of an ignore file, read line by line into entries.
//!
//! A line is trimmed of white space; a blank line or one that starts with `#`
//! is a comment. Of what is left, one trailing `/` is dropped, or, where there
//! is none, one leading `/`. A line that holds any of `* ? [ ]` is a glob
//! pattern, any other a literal path.

use vstd::prelude::*;
use vstd::string::*;

verus! {

/// One line of an ignore file, classified.
#[derive(Debug)]
pub enum IgnoreEntry {
    /// A path excluded by exact match, relative to the base directory.
    Literal(String),
    /// A wildcard matched against file names.
    Glob(String),
}

/// What an `IgnoreEntry` stands for.
pub enum EntryText {
    Literal(Seq<char>),
    Glob(Seq<char>),
}

impl View for IgnoreEntry {
    type V = EntryText;

    open spec fn view(&self) -> EntryText {
        match self {
            IgnoreEntry::Literal(s) => EntryText::Literal(s@),
            IgnoreEntry::Glob(s) => EntryText::Glob(s@),
        }
    }
}

/// The entries of a vector, each by its view.
pub open spec fn entry_texts(entries: Seq<IgnoreEntry>) -> Seq<EntryText> {
    entries.map_values(|e: IgnoreEntry| e@)
}

/// White space in the sense of Unicode's `White_Space` property.
pub open spec fn is_space(c: char) -> bool {
    let n = c as u32;
    ||| 0x09 <= n <= 0x0D
    ||| n == 0x20
    ||| n == 0x85
    ||| n == 0xA0
    ||| n == 0x1680
    ||| 0x2000 <= n <= 0x200A
    ||| n == 0x2028
    ||| n == 0x2029
    ||| n == 0x202F
    ||| n == 0x205F
    ||| n == 0x3000
}

/// One of the four characters that make a line a glob pattern.
pub open spec fn is_glob_meta(c: char) -> bool {
    c == '*' || c == '?' || c == '[' || c == ']'
}

/// A pattern is literal when it holds no glob metacharacter.
pub open spec fn is_literal_text(pattern: Seq<char>) -> bool {
    forall|i: int| 0 <= i < pattern.len() ==> !is_glob_meta(#[trigger] pattern[i])
}

/// The index of the first line feed at or after `pos`, or the length of `text`.
pub open spec fn line_end(text: Seq<char>, pos: int) -> int
    decreases text.len() - pos,
{
    if 0 <= pos < text.len() && text[pos] != '\n' {
        line_end(text, pos + 1)
    } else {
        pos
    }
}

/// The first index in `lo..hi` that holds no white space, or `hi`.
pub open spec fn skip_spaces(text: Seq<char>, lo: int, hi: int) -> int
    decreases hi - lo,
{
    if lo < hi && is_space(text[lo]) {
        skip_spaces(text, lo + 1, hi)
    } else {
        lo
    }
}

/// The end of `lo..hi` once trailing white space is dropped.
pub open spec fn drop_trailing_spaces(text: Seq<char>, lo: int, hi: int) -> int
    decreases hi - lo,
{
    if lo < hi && is_space(text[hi - 1]) {
        drop_trailing_spaces(text, lo, hi - 1)
    } else {
        hi
    }
}

/// `text[lo..hi]` without the white space at either end.
pub open spec fn trimmed(text: Seq<char>, lo: int, hi: int) -> Seq<char> {
    let start = skip_spaces(text, lo, hi);
    text.subrange(start, drop_trailing_spaces(text, start, hi))
}

/// A non-empty line without one trailing `/`, or else without one leading `/`.
pub open spec fn strip_slash(line: Seq<char>) -> Seq<char>
    recommends
        line.len() > 0,
{
    if line.last() == '/' {
        line.drop_last()
    } else if line.first() == '/' {
        line.drop_first()
    } else {
        line
    }
}

/// The entry that a trimmed line stands for; none for a blank line or a comment.
pub open spec fn line_entry(line: Seq<char>) -> Option<EntryText> {
    if line.len() == 0 || line[0] == '#' {
        None
    } else {
        let token = strip_slash(line);
        if is_literal_text(token) {
            Some(EntryText::Literal(token))
        } else {
            Some(EntryText::Glob(token))
        }
    }
}

/// The entries of the lines of `text` that start at or after `pos`, in order.
pub open spec fn entries_from(text: Seq<char>, pos: int) -> Seq<EntryText>
    decreases text.len() - pos,
{
    if 0 <= pos < text.len() {
        let end = line_end(text, pos);
        let rest = if pos <= end < text.len() {
            entries_from(text, end + 1)
        } else {
            Seq::empty()
        };
        match line_entry(trimmed(text, pos, end)) {
            Some(entry) => seq![entry] + rest,
            None => rest,
        }
    } else {
        Seq::empty()
    }
}

/// The entries of a whole ignore file.
pub open spec fn entries_of(text: Seq<char>) -> Seq<EntryText> {
    entries_from(text, 0)
}

/// An entry stands on the right side: a literal holds no glob
/// metacharacter, a glob holds at least one.
pub open spec fn well_classified(entry: EntryText) -> bool {
    match entry {
        EntryText::Literal(text) => is_literal_text(text),
        EntryText::Glob(text) => !is_literal_text(text),
    }
}

/// Every entry read from a text is either a literal or a glob, by whether
/// it holds a glob metacharacter, and never both.
pub proof fn lemma_entries_are_classified(text: Seq<char>, pos: int)
    ensures
        forall|i: int|
            0 <= i < entries_from(text, pos).len() ==> well_classified(
                #[trigger] entries_from(text, pos)[i],
            ),
    decreases text.len() - pos,
{
    if 0 <= pos < text.len() {
        let end = line_end(text, pos);
        let rest = if pos <= end < text.len() {
            entries_from(text, end + 1)
        } else {
            Seq::empty()
        };
        if pos <= end < text.len() {
            lemma_entries_are_classified(text, end + 1);
        }
        assert forall|i: int| 0 <= i < entries_from(text, pos).len() implies well_classified(
            #[trigger] entries_from(text, pos)[i],
        ) by {
            match line_entry(trimmed(text, pos, end)) {
                Some(entry) => {
                    assert(entries_from(text, pos) == seq![entry] + rest);
                    if i > 0 {
                        assert(entries_from(text, pos)[i] == rest[i - 1]);
                    }
                },
                None => {
                    assert(entries_from(text, pos) == rest);
                },
            }
        }
    }
}

/// The characters of a string, one by one.
pub fn to_chars(s: &str) -> (chars: Vec<char>)
    ensures
        chars@ == s@,
{
    broadcast use group_string_axioms;

    let mut chars: Vec<char> = Vec::new();
    for c in it: s.chars()
        invariant
            it.seq() == s@,
            chars@ == it.seq().take(it.index() as int),
    {
        chars.push(c);
    }
    chars
}

/// Whether `c` is white space.
pub fn is_space_char(c: char) -> (space: bool)
    ensures
        space == is_space(c),
{
    let n: u32 = c as u32;
    (0x09 <= n && n <= 0x0D) || n == 0x20 || n == 0x85 || n == 0xA0 || n == 0x1680 || (0x2000 <= n
        && n <= 0x200A) || n == 0x2028 || n == 0x2029 || n == 0x202F || n == 0x205F || n == 0x3000
}

/// Where `chars[lo..hi]` starts and ends once the white space at either end
/// is left out.
pub(crate) fn trim_bounds(chars: &Vec<char>, lo: usize, hi: usize) -> (bounds: (usize, usize))
    requires
        lo <= hi <= chars@.len(),
    ensures
        lo <= bounds.0 <= bounds.1 <= hi,
        bounds.0 == skip_spaces(chars@, lo as int, hi as int),
        bounds.1 == drop_trailing_spaces(chars@, bounds.0 as int, hi as int),
        chars@.subrange(bounds.0 as int, bounds.1 as int) == trimmed(chars@, lo as int, hi as int),
{
    let mut start: usize = lo;
    while start < hi && is_space_char(chars[start])
        invariant
            lo <= start <= hi <= chars@.len(),
            skip_spaces(chars@, start as int, hi as int) == skip_spaces(chars@, lo as int, hi as int),
        decreases hi - start,
    {
        start += 1;
    }
    let mut stop: usize = hi;
    while start < stop && is_space_char(chars[stop - 1])
        invariant
            start <= stop <= hi <= chars@.len(),
            drop_trailing_spaces(chars@, start as int, stop as int) == drop_trailing_spaces(
                chars@,
                start as int,
                hi as int,
            ),
        decreases stop - start,
    {
        stop -= 1;
    }
    (start, stop)
}

/// Whether `pattern` names one path only: it holds none of `* ? [ ]`.
pub fn is_literal_pattern(pattern: &str) -> (literal: bool)
    ensures
        literal == is_literal_text(pattern@),
{
    let chars = to_chars(pattern);
    let mut i: usize = 0;
    while i < chars.len()
        invariant
            i <= chars.len(),
            chars@ == pattern@,
            forall|j: int| 0 <= j < i ==> !is_glob_meta(#[trigger] pattern@[j]),
        decreases chars.len() - i,
    {
        let c = chars[i];
        if c == '*' || c == '?' || c == '[' || c == ']' {
            return false;
        }
        i += 1;
    }
    true
}

/// Reads the text of an ignore file into its entries, in the order of the lines.
pub fn parse_ignore_text(contents: &str) -> (entries: Vec<IgnoreEntry>)
    ensures
        entry_texts(entries@) == entries_of(contents@),
{
    let chars = to_chars(contents);
    let n: usize = chars.len();
    let ghost text = contents@;
    let mut entries: Vec<IgnoreEntry> = Vec::new();
    let mut pos: usize = 0;
    while pos < n
        invariant
            pos <= n,
            n == chars.len(),
            chars@ == text,
            text == contents@,
            entry_texts(entries@) + entries_from(text, pos as int) =~= entries_of(text),
        decreases n - pos,
    {
        let mut end: usize = pos;
        while end < n && chars[end] != '\n'
            invariant
                pos <= end <= n,
                n == chars.len(),
                chars@ == text,
                line_end(text, end as int) == line_end(text, pos as int),
            decreases n - end,
        {
            end += 1;
        }
        let (start, stop) = trim_bounds(&chars, pos, end);
        let ghost line = trimmed(text, pos as int, end as int);
        let ghost before = entry_texts(entries@);
        if start < stop && chars[start] != '#' {
            let mut from: usize = start;
            let mut to: usize = stop;
            if chars[stop - 1] == '/' {
                to = stop - 1;
            } else if chars[start] == '/' {
                from = start + 1;
            }
            let token = contents.substring_char(from, to).to_owned();
            assert(token@ =~= strip_slash(line));
            let entry = if is_literal_pattern(token.as_str()) {
                IgnoreEntry::Literal(token)
            } else {
                IgnoreEntry::Glob(token)
            };
            assert(line_entry(line) == Some(entry@));
            entries.push(entry);
            assert(entry_texts(entries@) =~= before.push(entry@));
        } else {
            assert(line_entry(line) is None);
        }
        if end < n {
            pos = end + 1;
        } else {
            pos = n;
        }
    }
    entries
}

} // verus!
