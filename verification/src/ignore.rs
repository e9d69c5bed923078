//! The ignore list: paths excluded by exact match, and glob patterns matched
//! against the final component of a path.

use crate::entries::{entries_of, entry_texts, parse_ignore_text, EntryText, IgnoreEntry};
use crate::globs::{compile_glob, glob_fault, glob_matches, pattern_text};
use crate::paths::{file_name_of, final_component, join_path, joined_path, texts_of};
use vstd::prelude::*;

verus! {

/// What an ignore list holds: a set of full paths and a sequence of pattern
/// texts.
pub struct IgnoreRules {
    pub literals: Set<Seq<char>>,
    pub patterns: Seq<Seq<char>>,
}

/// An entry that cannot be taken in: a glob that does not compile.
pub open spec fn rejected(entry: EntryText) -> bool {
    match entry {
        EntryText::Literal(_) => false,
        EntryText::Glob(text) => glob_fault(text) is Some,
    }
}

/// The index of the first rejected entry at or after `from`, or the number
/// of entries.
pub open spec fn first_rejected(entries: Seq<EntryText>, from: int) -> int
    decreases entries.len() - from,
{
    if 0 <= from < entries.len() && !rejected(entries[from]) {
        first_rejected(entries, from + 1)
    } else {
        from
    }
}

/// The full paths that `names` stand for under `base`.
pub open spec fn joined_all(base: Seq<char>, names: Seq<Seq<char>>) -> Set<Seq<char>> {
    Set::new(
        |path: Seq<char>|
            exists|i: int| 0 <= i < names.len() && path == joined_path(base, #[trigger] names[i]),
    )
}

impl IgnoreRules {
    /// Some pattern matches `name`.
    pub open spec fn matches_name(self, name: Seq<char>) -> bool {
        exists|i: int|
            0 <= i < self.patterns.len() && glob_matches(#[trigger] self.patterns[i], name)
    }

    /// `path` is excluded: it is one of the literal paths, or it has a final
    /// component and some pattern matches that component.
    pub open spec fn ignores(self, path: Seq<char>) -> bool {
        self.literals.contains(path) || match final_component(path) {
            Some(name) => self.matches_name(name),
            None => false,
        }
    }

    /// The rules with one more entry: a literal joins the set as a path
    /// under `base`, a glob is appended as it stands.
    pub open spec fn with_entry(self, base: Seq<char>, entry: EntryText) -> IgnoreRules {
        match entry {
            EntryText::Literal(text) => IgnoreRules {
                literals: self.literals.insert(joined_path(base, text)),
                patterns: self.patterns,
            },
            EntryText::Glob(text) => IgnoreRules {
                literals: self.literals,
                patterns: self.patterns.push(text),
            },
        }
    }

    /// The rules with `entries` taken in, first to last.
    pub open spec fn with_entries(self, base: Seq<char>, entries: Seq<EntryText>) -> IgnoreRules
        decreases entries.len(),
    {
        if entries.len() == 0 {
            self
        } else {
            self.with_entries(base, entries.drop_last()).with_entry(base, entries.last())
        }
    }

    /// The rules with each of `names` excluded as a path under `base`.
    pub open spec fn with_literals(self, base: Seq<char>, names: Seq<Seq<char>>) -> IgnoreRules {
        IgnoreRules {
            literals: self.literals.union(joined_all(base, names)),
            patterns: self.patterns,
        }
    }
}

/// The rules after `entries` were taken in up to the first rejected one.
pub open spec fn taken_in(
    before: IgnoreRules,
    base: Seq<char>,
    entries: Seq<EntryText>,
) -> IgnoreRules {
    before.with_entries(base, entries.take(first_rejected(entries, 0)))
}

/// `result` says how taking in `entries` ended: `Ok` where none is
/// rejected, else the first rejected pattern with the fault found in it.
pub open spec fn reports(result: Result<(), IgnoreError>, entries: Seq<EntryText>) -> bool {
    let stop = first_rejected(entries, 0);
    match result {
        Ok(_) => stop == entries.len(),
        Err(IgnoreError::Pattern { pattern, pos, message }) => {
            &&& 0 <= stop < entries.len()
            &&& entries[stop] == EntryText::Glob(pattern@)
            &&& glob_fault(pattern@) == Some((pos as int, message@))
        },
        Err(IgnoreError::ConfigNotFound) => false,
    }
}

/// Why an ignore file could not be loaded.
#[derive(Debug)]
pub enum IgnoreError {
    /// There is no file at the resolved location.
    ConfigNotFound,
    /// A glob pattern in the file does not compile.
    Pattern { pattern: String, pos: usize, message: String },
}

/// Paths to leave alone: literal full paths and compiled glob patterns.
pub struct IgnoreList {
    literals: Vec<String>,
    patterns: Vec<glob::Pattern>,
}

impl View for IgnoreList {
    type V = IgnoreRules;

    closed spec fn view(&self) -> IgnoreRules {
        IgnoreRules {
            literals: Set::new(
                |path: Seq<char>|
                    exists|i: int|
                        0 <= i < self.literals@.len() && path == (#[trigger] self.literals@[i])@,
            ),
            patterns: Seq::new(self.patterns@.len(), |i: int| pattern_text(self.patterns@[i])),
        }
    }
}

impl IgnoreList {
    /// No literal path is held twice.
    pub closed spec fn wf(&self) -> bool {
        forall|i: int, j: int|
            0 <= i < j < self.literals@.len() ==> (#[trigger] self.literals@[i])@ != (
            #[trigger] self.literals@[j])@
    }

    /// An empty list: nothing is ignored.
    pub fn new() -> (list: IgnoreList)
        ensures
            list.wf(),
            list@.literals == Set::<Seq<char>>::empty(),
            list@.patterns == Seq::<Seq<char>>::empty(),
    {
        let list = IgnoreList { literals: Vec::new(), patterns: Vec::new() };
        assert(list@.literals =~= Set::<Seq<char>>::empty());
        assert(list@.patterns =~= Seq::<Seq<char>>::empty());
        list
    }

    fn holds_literal(&self, path: &String) -> (held: bool)
        ensures
            held == self@.literals.contains(path@),
    {
        let mut i: usize = 0;
        while i < self.literals.len()
            invariant
                i <= self.literals@.len(),
                forall|j: int| 0 <= j < i ==> (#[trigger] self.literals@[j])@ != path@,
            decreases self.literals@.len() - i,
        {
            if self.literals[i] == *path {
                return true;
            }
            i += 1;
        }
        false
    }

    fn insert_literal(&mut self, path: String)
        requires
            old(self).wf(),
        ensures
            final(self).wf(),
            final(self)@.literals == old(self)@.literals.insert(path@),
            final(self)@.patterns == old(self)@.patterns,
    {
        if !self.holds_literal(&path) {
            let ghost before = self.literals@;
            self.literals.push(path);
            assert forall|p: Seq<char>| self@.literals.contains(p) == old(self)@.literals.insert(
                path@,
            ).contains(p) by {
                if old(self)@.literals.contains(p) {
                    let i = choose|i: int| 0 <= i < before.len() && p == (#[trigger] before[i])@;
                    assert(self.literals@[i]@ == p);
                }
                if p == path@ {
                    assert(self.literals@[before.len() as int]@ == p);
                }
            }
        }
        assert(self@.literals =~= old(self)@.literals.insert(path@));
        assert(self@.patterns =~= old(self)@.patterns);
    }

    fn push_pattern(&mut self, pattern: glob::Pattern)
        requires
            old(self).wf(),
        ensures
            final(self).wf(),
            final(self)@.literals == old(self)@.literals,
            final(self)@.patterns == old(self)@.patterns.push(pattern_text(pattern)),
    {
        self.patterns.push(pattern);
        assert(self@.literals =~= old(self)@.literals);
        assert(self@.patterns =~= old(self)@.patterns.push(pattern_text(pattern)));
    }

    /// Whether `path` is ignored: it is one of the literal paths, or its
    /// final component matches one of the patterns. A path without a final
    /// component matches no pattern.
    pub fn is_ignored(&self, path: &str) -> (ignored: bool)
        ensures
            ignored == self@.ignores(path@),
    {
        let owned = path.to_owned();
        if self.holds_literal(&owned) {
            return true;
        }
        match file_name_of(path) {
            None => false,
            Some(name) => {
                let mut i: usize = 0;
                while i < self.patterns.len()
                    invariant
                        i <= self.patterns@.len(),
                        !self@.literals.contains(path@),
                        final_component(path@) == Some(name@),
                        forall|j: int|
                            0 <= j < i ==> !glob_matches(#[trigger] self@.patterns[j], name@),
                    decreases self.patterns@.len() - i,
                {
                    if self.patterns[i].matches(name.as_str()) {
                        assert(glob_matches(self@.patterns[i as int], name@));
                        return true;
                    }
                    i += 1;
                }
                false
            },
        }
    }

    /// Excludes each of `paths` as a path under `base_dir`. Without paths
    /// the list stays as it is.
    pub fn add_literals(&mut self, paths: Option<Vec<String>>, base_dir: &str)
        requires
            old(self).wf(),
        ensures
            final(self).wf(),
            final(self)@ == match paths {
                Some(names) => old(self)@.with_literals(base_dir@, texts_of(names@)),
                None => old(self)@,
            },
    {
        let names = match paths {
            Some(names) => names,
            None => {
                return ;
            },
        };
        let ghost texts = texts_of(names@);
        assert(self@.literals =~= old(self)@.literals.union(joined_all(base_dir@, texts.take(0))));
        let mut i: usize = 0;
        while i < names.len()
            invariant
                i <= names@.len(),
                self.wf(),
                texts == texts_of(names@),
                self@.patterns == old(self)@.patterns,
                self@.literals == old(self)@.literals.union(
                    joined_all(base_dir@, texts.take(i as int)),
                ),
            decreases names@.len() - i,
        {
            self.insert_literal(join_path(base_dir, names[i].as_str()));
            proof {
                let grown = texts.take(i + 1);
                let path = joined_path(base_dir@, texts[i as int]);
                assert(grown[i as int] == texts[i as int]);
                assert forall|p: Seq<char>|
                    joined_all(base_dir@, grown).contains(p) == joined_all(
                        base_dir@,
                        texts.take(i as int),
                    ).insert(path).contains(p) by {
                    if joined_all(base_dir@, grown).contains(p) {
                        let j = choose|j: int|
                            0 <= j < grown.len() && p == joined_path(base_dir@, #[trigger] grown[j]);
                        if j < i {
                            assert(texts.take(i as int)[j] == grown[j]);
                        }
                    }
                    if joined_all(base_dir@, texts.take(i as int)).contains(p) {
                        let j = choose|j: int|
                            0 <= j < i && p == joined_path(
                                base_dir@,
                                #[trigger] texts.take(i as int)[j],
                            );
                        assert(grown[j] == texts.take(i as int)[j]);
                    }
                }
                assert(self@.literals =~= old(self)@.literals.union(joined_all(base_dir@, grown)));
            }
            i += 1;
        }
        assert(texts.take(names@.len() as int) =~= texts);
    }

    /// Takes in `entries`, first to last: a literal as a path under
    /// `base_dir`, a glob compiled. Stops at the first glob that does not
    /// compile and reports it; what came before it stays in the list.
    pub fn add_entries(&mut self, entries: &Vec<IgnoreEntry>, base_dir: &str) -> (result: Result<
        (),
        IgnoreError,
    >)
        requires
            old(self).wf(),
        ensures
            final(self).wf(),
            final(self)@ == taken_in(old(self)@, base_dir@, entry_texts(entries@)),
            reports(result, entry_texts(entries@)),
    {
        let ghost texts = entry_texts(entries@);
        assert(texts.take(0) =~= Seq::<EntryText>::empty());
        let mut i: usize = 0;
        while i < entries.len()
            invariant
                i <= entries@.len(),
                self.wf(),
                texts == entry_texts(entries@),
                first_rejected(texts, i as int) == first_rejected(texts, 0),
                self@ == old(self)@.with_entries(base_dir@, texts.take(i as int)),
            decreases entries@.len() - i,
        {
            assert(texts[i as int] == entries@[i as int]@);
            assert(texts.take(i + 1).drop_last() =~= texts.take(i as int));
            assert(texts.take(i + 1).last() == texts[i as int]);
            match &entries[i] {
                IgnoreEntry::Literal(name) => {
                    self.insert_literal(join_path(base_dir, name.as_str()));
                },
                IgnoreEntry::Glob(text) => {
                    match compile_glob(text.as_str()) {
                        Ok(pattern) => {
                            self.push_pattern(pattern);
                        },
                        Err(fault) => {
                            return Err(
                                IgnoreError::Pattern {
                                    pattern: text.clone(),
                                    pos: fault.pos,
                                    message: fault.message,
                                },
                            );
                        },
                    }
                },
            }
            i += 1;
        }
        assert(texts.take(entries@.len() as int) =~= texts);
        Ok(())
    }

    /// Loads the contents of an ignore file, `None` standing for a file
    /// that does not exist. Literal lines are resolved against `base_dir`.
    pub fn load_from_file(&mut self, contents: Option<&str>, base_dir: &str) -> (result: Result<
        (),
        IgnoreError,
    >)
        requires
            old(self).wf(),
        ensures
            final(self).wf(),
            match contents {
                None => {
                    &&& result == Err::<(), IgnoreError>(IgnoreError::ConfigNotFound)
                    &&& final(self)@ == old(self)@
                },
                Some(text) => {
                    &&& final(self)@ == taken_in(old(self)@, base_dir@, entries_of(text@))
                    &&& reports(result, entries_of(text@))
                },
            },
    {
        match contents {
            None => Err(IgnoreError::ConfigNotFound),
            Some(text) => {
                let entries = parse_ignore_text(text);
                self.add_entries(&entries, base_dir)
            },
        }
    }

    /// The paths of `listing` that are not ignored, in the order of the
    /// listing.
    pub fn candidates(&self, listing: &Vec<String>) -> (kept: Vec<String>)
        ensures
            texts_of(kept@) == texts_of(listing@).filter(|path: Seq<char>| !self@.ignores(path)),
    {
        let ghost wanted = |path: Seq<char>| !self@.ignores(path);
        let ghost texts = texts_of(listing@);
        let mut kept: Vec<String> = Vec::new();
        let mut i: usize = 0;
        assert(texts.take(0).filter(wanted) =~= Seq::<Seq<char>>::empty()) by {
            reveal(Seq::filter);
        }
        while i < listing.len()
            invariant
                i <= listing@.len(),
                texts == texts_of(listing@),
                wanted == |path: Seq<char>| !self@.ignores(path),
                texts_of(kept@) =~= texts.take(i as int).filter(wanted),
            decreases listing@.len() - i,
        {
            let ghost before = texts_of(kept@);
            proof {
                assert(texts.take(i + 1).drop_last() =~= texts.take(i as int));
                assert(texts.take(i + 1).last() == listing@[i as int]@);
                reveal(Seq::filter);
            }
            if !self.is_ignored(listing[i].as_str()) {
                kept.push(listing[i].clone());
                assert(texts_of(kept@) =~= before.push(listing@[i as int]@));
            }
            i += 1;
        }
        assert(texts.take(listing@.len() as int) =~= texts);
        kept
    }

    /// The literal paths held, each of them once.
    pub fn literal_paths(&self) -> (paths: Vec<String>)
        requires
            self.wf(),
        ensures
            forall|p: Seq<char>|
                self@.literals.contains(p) <==> exists|i: int|
                    0 <= i < paths@.len() && (#[trigger] paths@[i])@ == p,
            forall|i: int, j: int|
                0 <= i < j < paths@.len() ==> (#[trigger] paths@[i])@ != (#[trigger] paths@[j])@,
    {
        let paths = self.literals.clone();
        assert(paths@ =~= self.literals@) by {
            assert forall|i: int| 0 <= i < paths@.len() implies paths@[i] == self.literals@[i] by {
                assert(vstd::pervasive::cloned(self.literals@[i], paths@[i]));
            }
        }
        paths
    }

    /// The texts of the patterns held, in the order in which they came.
    pub fn pattern_texts(&self) -> (texts: Vec<String>)
        ensures
            texts_of(texts@) == self@.patterns,
    {
        let mut texts: Vec<String> = Vec::new();
        let mut i: usize = 0;
        while i < self.patterns.len()
            invariant
                i <= self.patterns@.len(),
                texts@.len() == i,
                texts_of(texts@) =~= self@.patterns.take(i as int),
            decreases self.patterns@.len() - i,
        {
            let text = self.patterns[i].as_str().to_owned();
            assert(text@ == self@.patterns[i as int]);
            texts.push(text);
            assert(texts_of(texts@).len() == i + 1);
            assert forall|j: int| 0 <= j <= i implies texts_of(texts@)[j] == self@.patterns[j] by {
                if j < i {
                    assert(texts_of(texts@)[j] == self@.patterns.take(i as int)[j]);
                }
            }
            i += 1;
        }
        texts
    }
}

impl Default for IgnoreList {
    fn default() -> (list: IgnoreList)
        ensures
            list.wf(),
            list@.literals == Set::<Seq<char>>::empty(),
            list@.patterns == Seq::<Seq<char>>::empty(),
    {
        IgnoreList::new()
    }
}

/// A name excluded under `base` is ignored as a path under `base`.
pub proof fn lemma_added_literal_is_ignored(
    rules: IgnoreRules,
    base: Seq<char>,
    names: Seq<Seq<char>>,
    i: int,
)
    requires
        0 <= i < names.len(),
    ensures
        rules.with_literals(base, names).ignores(joined_path(base, names[i])),
{
    assert(joined_all(base, names).contains(joined_path(base, names[i])));
}

/// A literal entry that was taken in is ignored as a path under `base`,
/// whatever entries came after it.
pub proof fn lemma_literal_entry_is_ignored(
    rules: IgnoreRules,
    base: Seq<char>,
    entries: Seq<EntryText>,
    i: int,
    name: Seq<char>,
)
    requires
        0 <= i < entries.len(),
        entries[i] == EntryText::Literal(name),
    ensures
        rules.with_entries(base, entries).literals.contains(joined_path(base, name)),
        rules.with_entries(base, entries).ignores(joined_path(base, name)),
    decreases entries.len(),
{
    if i < entries.len() - 1 {
        lemma_literal_entry_is_ignored(rules, base, entries.drop_last(), i, name);
    }
}

/// A literal line of a loaded file that stands before the first rejected
/// pattern is ignored as a path under `base`.
pub proof fn lemma_loaded_literal_is_ignored(
    rules: IgnoreRules,
    base: Seq<char>,
    entries: Seq<EntryText>,
    i: int,
    name: Seq<char>,
)
    requires
        0 <= i < entries.len(),
        entries[i] == EntryText::Literal(name),
    ensures
        i < first_rejected(entries, 0) ==> taken_in(rules, base, entries).ignores(
            joined_path(base, name),
        ),
{
    let stop = first_rejected(entries, 0);
    lemma_first_rejected_bounds(entries, 0);
    if i < stop {
        lemma_literal_entry_is_ignored(rules, base, entries.take(stop), i, name);
    }
}

/// The first rejected entry lies between `from` and the end.
pub proof fn lemma_first_rejected_bounds(entries: Seq<EntryText>, from: int)
    requires
        0 <= from <= entries.len(),
    ensures
        from <= first_rejected(entries, from) <= entries.len(),
        first_rejected(entries, from) < entries.len() ==> rejected(
            entries[first_rejected(entries, from)],
        ),
        forall|j: int| from <= j < first_rejected(entries, from) ==> !rejected(entries[j]),
    decreases entries.len() - from,
{
    if from < entries.len() && !rejected(entries[from]) {
        lemma_first_rejected_bounds(entries, from + 1);
    }
}

/// A path that is none of the literal paths, and whose final component no
/// pattern matches, is not ignored.
pub proof fn lemma_unlisted_path_is_kept(rules: IgnoreRules, path: Seq<char>)
    requires
        !rules.literals.contains(path),
    ensures
        final_component(path) is None ==> !rules.ignores(path),
        final_component(path) is Some && !rules.matches_name(final_component(path)->0)
            ==> !rules.ignores(path),
{
}

/// A file name that some pattern matches is ignored in whatever directory
/// it lies, as long as it is the final component of the path it makes there.
pub proof fn lemma_matched_name_is_ignored(
    rules: IgnoreRules,
    dir: Seq<char>,
    name: Seq<char>,
    i: int,
)
    requires
        0 <= i < rules.patterns.len(),
    ensures
        glob_matches(rules.patterns[i], name) && final_component(joined_path(dir, name)) == Some(
            name,
        ) ==> rules.ignores(joined_path(dir, name)),
{
}

} // verus!
