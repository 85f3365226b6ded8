//! The file browser of the settings screen and the project setup wizard:
//! moving the cursor, marking files, and walking into and out of
//! directories. Reading a directory's entries from disk is the caller's part.
use vstd::prelude::*;
use crate::agent::texts;
use crate::task_nav::{
    distinct_names, find_name, lemma_push_distinct, lemma_remove_distinct, lemma_texts_push,
    lemma_texts_remove,
};

verus! {

/// One entry of a directory listing.
#[derive(Debug)]
pub struct FileEntry {
    pub name: String,
    pub path: String,
    pub is_dir: bool,
}

/// A file browser: the directory shown, its entries, the cursor, and the
/// paths marked so far (each once).
#[derive(Debug)]
pub struct FileBrowser {
    pub active: bool,
    pub current_path: String,
    pub entries: Vec<FileEntry>,
    pub selected_index: usize,
    pub selected_files: Vec<String>,
}

/// `marked` with `path` taken out where it is in, and put in where it is not.
pub open spec fn mark_toggled(marked: Set<Seq<char>>, path: Seq<char>) -> Set<Seq<char>> {
    if marked.contains(path) {
        marked.remove(path)
    } else {
        marked.insert(path)
    }
}

/// Whether the entry can be marked: a file, or the entry `..`.
pub open spec fn markable(e: FileEntry) -> bool {
    !e.is_dir || e.name@ == ".."@
}

impl FileBrowser {
    /// Each path is marked at most once.
    pub open spec fn wf(&self) -> bool {
        distinct_names(self.selected_files@)
    }

    /// The marked paths.
    pub open spec fn marked(&self) -> Set<Seq<char>> {
        texts(self.selected_files@).to_set()
    }

    /// Moves the cursor down one entry, stopping at the last one.
    pub fn select_next(&mut self)
        requires
            old(self).selected_index < usize::MAX,
        ensures
            final(self).selected_index == (if old(self).selected_index + 1 < old(self).entries.len() {
                old(self).selected_index + 1
            } else if old(self).entries.len() > 0 {
                old(self).entries.len() - 1
            } else {
                0
            }),
            final(self).entries == old(self).entries,
            final(self).selected_files == old(self).selected_files,
            final(self).current_path == old(self).current_path,
            final(self).active == old(self).active,
    {
        let last = self.entries.len().saturating_sub(1);
        let next = self.selected_index + 1;
        self.selected_index = if next < last { next } else { last };
    }

    /// Moves the cursor up one entry, stopping at the first one.
    pub fn select_prev(&mut self)
        ensures
            final(self).selected_index == (if old(self).selected_index > 0 {
                old(self).selected_index - 1
            } else {
                0
            }),
            final(self).entries == old(self).entries,
            final(self).selected_files == old(self).selected_files,
            final(self).current_path == old(self).current_path,
            final(self).active == old(self).active,
    {
        self.selected_index = self.selected_index.saturating_sub(1);
    }

    /// Marks the entry under the cursor, or unmarks it where it was marked,
    /// when it is a file or `..`. Returns whether it did, in which case the
    /// listing is to be read again.
    pub fn toggle_selected(&mut self) -> (reload: bool)
        requires
            old(self).wf(),
        ensures
            final(self).wf(),
            reload == (old(self).selected_index < old(self).entries.len()
                && markable(old(self).entries@[old(self).selected_index as int])),
            final(self).marked() == (if reload {
                mark_toggled(old(self).marked(), old(self).entries@[old(self).selected_index as int].path@)
            } else {
                old(self).marked()
            }),
            final(self).entries == old(self).entries,
            final(self).selected_index == old(self).selected_index,
            final(self).current_path == old(self).current_path,
            final(self).active == old(self).active,
    {
        if self.selected_index >= self.entries.len() {
            return false;
        }
        let entry = &self.entries[self.selected_index];
        let dotdot = crate::text::str_eq(entry.name.as_str(), "..");
        if entry.is_dir && !dotdot {
            return false;
        }
        let path = entry.path.clone();
        let ghost marked = texts(self.selected_files@);
        match find_name(&self.selected_files, &path) {
            Some(k) => {
                proof {
                    lemma_texts_remove(self.selected_files@, k as int);
                    lemma_remove_distinct(marked, k as int);
                }
                self.selected_files.remove(k);
            },
            None => {
                proof {
                    lemma_texts_push(self.selected_files@, path);
                    lemma_push_distinct(marked, path@);
                }
                self.selected_files.push(path);
            },
        }
        true
    }

    /// Walks into the directory under the cursor: it becomes the one shown,
    /// with the cursor at the top. Returns whether it did, in which case the
    /// listing is to be read again.
    pub fn enter_dir(&mut self) -> (reload: bool)
        ensures
            reload == (old(self).selected_index < old(self).entries.len()
                && old(self).entries@[old(self).selected_index as int].is_dir),
            reload ==> final(self).current_path@ == old(self).entries@[old(self).selected_index as int].path@
                && final(self).selected_index == 0,
            !reload ==> final(self).current_path == old(self).current_path
                && final(self).selected_index == old(self).selected_index,
            final(self).entries == old(self).entries,
            final(self).selected_files == old(self).selected_files,
            final(self).active == old(self).active,
    {
        if self.selected_index < self.entries.len() && self.entries[self.selected_index].is_dir {
            self.current_path = self.entries[self.selected_index].path.clone();
            self.selected_index = 0;
            true
        } else {
            false
        }
    }

    /// Shows `parent`, the directory above the one shown, with the cursor at
    /// the top; without one (at the root) nothing changes. Returns whether
    /// the directory changed, in which case the listing is to be read again.
    pub fn move_to_parent(&mut self, parent: Option<String>) -> (reload: bool)
        ensures
            reload == parent is Some,
            match parent {
                Some(p) => final(self).current_path@ == p@ && final(self).selected_index == 0,
                None => final(self).current_path == old(self).current_path
                    && final(self).selected_index == old(self).selected_index,
            },
            final(self).entries == old(self).entries,
            final(self).selected_files == old(self).selected_files,
            final(self).active == old(self).active,
    {
        match parent {
            Some(p) => {
                self.current_path = p;
                self.selected_index = 0;
                true
            },
            None => false,
        }
    }

    /// Walks out to the directory above the one shown, as
    /// [`FileBrowser::move_to_parent`] does with the parent that
    /// `Path::parent` finds in the shown path: a proper prefix of it. There is
    /// none for an empty path, and there is one for a path that ends in an
    /// ASCII letter or digit, has no backslash and does not start with `//`;
    /// for a plain path it is [`plain_parent`].
    pub fn go_parent(&mut self) -> (reload: bool)
        ensures
            final(self).entries == old(self).entries,
            final(self).selected_files == old(self).selected_files,
            final(self).active == old(self).active,
            !reload ==> final(self).current_path == old(self).current_path
                && final(self).selected_index == old(self).selected_index,
            reload ==> final(self).selected_index == 0
                && is_proper_prefix(final(self).current_path@, old(self).current_path@),
            old(self).current_path@.len() == 0 ==> !reload,
            surely_has_parent(old(self).current_path@) ==> reload,
            is_plain_path(old(self).current_path@) ==> reload
                && final(self).current_path@ == plain_parent(old(self).current_path@),
    {
        let parent = parent_path(self.current_path.as_str());
        self.move_to_parent(parent)
    }
}

/// Whether `p` is `s` cut short: a prefix of `s` and shorter.
pub open spec fn is_proper_prefix(p: Seq<char>, s: Seq<char>) -> bool {
    p.len() < s.len() && p == s.take(p.len() as int)
}

/// Whether `c` is an ASCII letter or digit.
pub open spec fn is_ascii_alnum(c: char) -> bool {
    ('a' <= c <= 'z') || ('A' <= c <= 'Z') || ('0' <= c <= '9')
}

/// A path whose last component is an ordinary name on every platform: it
/// ends in an ASCII letter or digit, holds no backslash, and does not start with
/// `//` (which some platforms read as a network prefix).
pub open spec fn surely_has_parent(s: Seq<char>) -> bool {
    &&& s.len() > 0
    &&& is_ascii_alnum(s.last())
    &&& forall|i: int| 0 <= i < s.len() ==> s[i] != '\\'
    &&& !(s.len() >= 2 && s[0] == '/' && s[1] == '/')
}

/// Whether `s` is a plain path: not empty, made of ASCII letters, digits and
/// `/` alone, with no two `/` in a row and no `/` at the end. Such a path
/// reads the same under every platform's path rules.
pub open spec fn is_plain_path(s: Seq<char>) -> bool {
    &&& s.len() > 0
    &&& forall|i: int| 0 <= i < s.len() ==> is_ascii_alnum(#[trigger] s[i]) || s[i] == '/'
    &&& forall|i: int| 0 <= i < s.len() - 1 ==> !(#[trigger] s[i] == '/' && s[i + 1] == '/')
    &&& s.last() != '/'
}

/// The position of the last `/` in `s`, or -1 where it has none.
pub open spec fn last_slash(s: Seq<char>) -> int
    decreases s.len(),
{
    if s.len() == 0 {
        -1
    } else if s.last() == '/' {
        s.len() - 1
    } else {
        last_slash(s.drop_last())
    }
}

/// The parent of a plain path: the text before its last `/`, or `/` where
/// that is the only one and comes first, or the empty path where it has no
/// `/` (as `Path::new("foo").parent()` gives `Some("")`).
pub open spec fn plain_parent(s: Seq<char>) -> Seq<char> {
    let k = last_slash(s);
    if k < 0 {
        Seq::empty()
    } else if k == 0 {
        seq!['/']
    } else {
        s.take(k)
    }
}

/// The directory above `path`, by `std::path::Path::parent` and
/// `to_string_lossy`. Claims what the documentation of `Path::parent` says:
/// the result is the path without its final component, so a proper prefix
/// of it; an empty path has none; a path whose last component is an ordinary
/// name has one; for a plain path, the documentation's examples (`/foo/bar`
/// gives `/foo`, `/foo` gives `/`, `foo` gives the empty path) fix the
/// result. Where the cut falls in other paths depends on the platform's path
/// rules and is not stated.
#[verifier::external_body]
fn parent_path(path: &str) -> (r: Option<String>)
    ensures
        r matches Some(p) ==> is_proper_prefix(p@, path@),
        path@.len() == 0 ==> r is None,
        surely_has_parent(path@) ==> r is Some,
        is_plain_path(path@) ==> r is Some && r->0@ == plain_parent(path@),
{
    match std::path::Path::new(path).parent() {
        Some(p) => Some(p.to_string_lossy().into_owned()),
        None => None,
    }
}

} // verus!

verus! {

/// Marking the same path twice leaves the marks as they were.
pub proof fn lemma_mark_toggle_twice(marked: Set<Seq<char>>, path: Seq<char>)
    ensures
        mark_toggled(mark_toggled(marked, path), path) == marked,
{
    assert(mark_toggled(mark_toggled(marked, path), path) =~= marked);
}

} // verus!
