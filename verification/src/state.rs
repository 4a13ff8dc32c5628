//! The browser's state with the shown files kept as positions in the
//! listing, and the states of the single components.

use vstd::prelude::*;
use vstd::string::*;
use crate::cursor::{clamp, clamped, in_bounds, moved_down, moved_up, step_down, step_up};
use crate::listing::{
    indices_below, is_directory_sorted, lemma_directory_sorted_unique, search_indices,
    search_positions, sort_listing, Entry,
};
use crate::services::file_service::{parent_of, parent_of_path};
use crate::text::{delete_last_word, without_last_char, without_last_word};

pub mod app_state;
pub mod fuzzy_find_state;
pub mod navigation_state;
pub mod search_state;
pub mod view_states;

verus! {

/// One file system object with the time of its last change.
#[derive(Debug, PartialEq, Eq)]
pub struct FileEntry {
    pub name: String,
    pub path: String,
    pub is_directory: bool,
    /// Size in bytes, for regular files only.
    pub size: Option<u64>,
    /// Seconds between the start of 1970 and the last change, where known.
    pub modified: Option<u64>,
}

impl FileEntry {
    /// The entry for a file system object of this name and path. Only a
    /// regular file has a size; `len` is left out for everything else.
    pub fn new(
        name: String,
        path: String,
        is_directory: bool,
        is_file: bool,
        len: u64,
        modified: Option<u64>,
    ) -> (r: Self)
        ensures
            r.name == name,
            r.path == path,
            r.is_directory == is_directory,
            r.size == if is_file {
                Some(len)
            } else {
                None
            },
            r.modified == modified,
    {
        FileEntry {
            name,
            path,
            is_directory,
            size: if is_file {
                Some(len)
            } else {
                None
            },
            modified,
        }
    }
}

impl Clone for FileEntry {
    fn clone(&self) -> (r: Self)
        ensures
            r == *self,
    {
        FileEntry {
            name: self.name.clone(),
            path: self.path.clone(),
            is_directory: self.is_directory,
            size: self.size,
            modified: self.modified,
        }
    }
}

impl Entry for FileEntry {
    open spec fn name_chars(&self) -> Seq<char> {
        self.name@
    }

    open spec fn path_chars(&self) -> Seq<char> {
        self.path@
    }

    fn entry_name(&self) -> (r: &str) {
        self.name.as_str()
    }

    fn entry_path(&self) -> (r: &str) {
        self.path.as_str()
    }

    fn duplicate(&self) -> (r: Self) {
        self.clone()
    }

    open spec fn is_dir_spec(&self) -> bool {
        self.is_directory
    }

    fn is_dir(&self) -> (r: bool) {
        self.is_directory
    }
}

/// A directory, its sorted listing, the query, the positions of the listed
/// files that the query lets through, and the cursor into those.
#[derive(Debug)]
pub struct AppState {
    pub current_dir: String,
    pub files: Vec<FileEntry>,
    /// Positions in `files`.
    pub filtered_files: Vec<usize>,
    /// Position in `filtered_files`.
    pub selected_index: usize,
    pub search_query: String,
}

impl AppState {
    /// The filtered positions are those of the files whose names contain the
    /// query, and the cursor points into them.
    pub open spec fn wf(&self) -> bool {
        &&& self.filtered_files@ == search_indices(self.files@, self.search_query@)
        &&& indices_below(self.filtered_files@, self.files@.len() as int)
        &&& in_bounds(self.selected_index as int, self.filtered_files@.len() as int)
    }

    /// `self` is `before` with the given query, the filter computed anew and
    /// the cursor clamped to it.
    pub open spec fn is_update_of(&self, before: &AppState, query: Seq<char>) -> bool {
        &&& self.search_query@ == query
        &&& self.current_dir == before.current_dir
        &&& self.files == before.files
        &&& self.selected_index == clamped(
            before.selected_index as int,
            self.filtered_files@.len() as int,
        )
        &&& self.wf()
    }

    /// The state after `dir` was read as `found`: the entries in directory
    /// order, no query, every entry shown, the cursor on the first.
    pub open spec fn is_listing_of(&self, dir: Seq<char>, found: Seq<FileEntry>) -> bool {
        &&& self.current_dir@ == dir
        &&& is_directory_sorted(found, self.files@)
        &&& self.files@.len() == found.len()
        &&& self.search_query@.len() == 0
        &&& self.selected_index == 0
        &&& self.wf()
    }

    /// The file at a position of the filter, if the position exists and
    /// names a listed file.
    pub open spec fn file_at(&self, index: int) -> Option<&FileEntry> {
        if 0 <= index < self.filtered_files@.len() && self.filtered_files@[index]
            < self.files@.len() {
            Some(&self.files@[self.filtered_files@[index] as int])
        } else {
            None
        }
    }

    /// Starts in `current_dir`, which was read as `entries`. A directory that
    /// could not be read shows as empty.
    pub fn new(current_dir: String, entries: Result<Vec<FileEntry>, String>) -> (r: Self)
        ensures
            match entries {
                Ok(found) => r.is_listing_of(current_dir@, found@),
                Err(_) => r.is_listing_of(current_dir@, Seq::empty()),
            },
    {
        let mut state = AppState {
            current_dir,
            files: Vec::new(),
            filtered_files: Vec::new(),
            selected_index: 0,
            search_query: String::new(),
        };
        match entries {
            Ok(found) => state.list(found),
            Err(_) => state.list(Vec::new()),
        }
        state
    }

    /// Lists what was read of the current directory: sorted with
    /// directories first and then by name without regard to case, the query
    /// forgotten, the cursor on the first entry.
    fn list(&mut self, found: Vec<FileEntry>)
        ensures
            final(self).is_listing_of(old(self).current_dir@, found@),
    {
        self.files = sort_listing(&found);
        self.search_query = String::new();
        self.selected_index = 0;
        self.update_filtered_files();
    }

    /// Takes a new reading of the current directory: sorts it with
    /// directories first and then by name without regard to case, forgets
    /// the query and puts the cursor on the first entry. A failed read is
    /// handed back and leaves the state as it was.
    pub fn refresh_files(&mut self, entries: Result<Vec<FileEntry>, String>) -> (r: Result<(), String>)
        ensures
            match entries {
                Ok(found) => r is Ok && final(self).is_listing_of(old(self).current_dir@, found@),
                Err(e) => r == Err::<(), String>(e) && *final(self) == *old(self),
            },
    {
        match entries {
            Ok(found) => {
                self.list(found);
                Ok(())
            },
            Err(e) => Err(e),
        }
    }

    /// Computes the filter anew and clamps the cursor to it.
    fn update_filtered_files(&mut self)
        ensures
            final(self).is_update_of(old(self), old(self).search_query@),
    {
        self.filtered_files = search_positions(&self.files, self.search_query.as_str());
        self.selected_index = clamp(self.selected_index, self.filtered_files.len());
    }

    /// The file under the cursor.
    pub fn get_selected_file(&self) -> (r: Option<&FileEntry>)
        ensures
            r == self.file_at(self.selected_index as int),
    {
        self.get_filtered_file(self.selected_index)
    }

    /// The file at a position of the filter.
    pub fn get_filtered_file(&self, index: usize) -> (r: Option<&FileEntry>)
        ensures
            r == self.file_at(index as int),
    {
        if index < self.filtered_files.len() {
            let file_index = self.filtered_files[index];
            if file_index < self.files.len() {
                Some(&self.files[file_index])
            } else {
                None
            }
        } else {
            None
        }
    }

    pub fn filtered_files_len(&self) -> (r: usize)
        ensures
            r == self.filtered_files@.len(),
    {
        self.filtered_files.len()
    }

    pub fn move_selection_up(&mut self)
        ensures
            final(self).selected_index == moved_up(old(self).selected_index as int),
            final(self).current_dir == old(self).current_dir,
            final(self).files == old(self).files,
            final(self).filtered_files == old(self).filtered_files,
            final(self).search_query == old(self).search_query,
            old(self).wf() ==> final(self).wf(),
    {
        self.selected_index = step_up(self.selected_index);
    }

    pub fn move_selection_down(&mut self)
        ensures
            final(self).selected_index == moved_down(
                old(self).selected_index as int,
                old(self).filtered_files@.len() as int,
            ),
            final(self).current_dir == old(self).current_dir,
            final(self).files == old(self).files,
            final(self).filtered_files == old(self).filtered_files,
            final(self).search_query == old(self).search_query,
            old(self).wf() ==> final(self).wf(),
    {
        self.selected_index = step_down(self.selected_index, self.filtered_files.len());
    }

    /// Enters the directory under the cursor, which was read as `entries`.
    /// Without a selection, with a file selected, or after a failed read
    /// nothing changes and the refusal is reported.
    pub fn enter_directory(&mut self, entries: Result<Vec<FileEntry>, String>) -> (r: Result<
        (),
        String,
    >)
        ensures
            match old(self).file_at(old(self).selected_index as int) {
                Some(file) => if file.is_directory {
                    match entries {
                        Ok(found) => r is Ok && final(self).is_listing_of(file.path@, found@),
                        Err(e) => r == Err::<(), String>(e) && *final(self) == *old(self),
                    }
                } else {
                    *final(self) == *old(self) && (r matches Err(text) && text@
                        == "Selected item is not a directory"@)
                },
                None => *final(self) == *old(self) && (r matches Err(text) && text@
                    == "No file selected"@),
            },
    {
        let target = match self.get_selected_file() {
            Some(selected) => {
                if selected.is_directory {
                    Ok(selected.path.clone())
                } else {
                    Err(String::from_str("Selected item is not a directory"))
                }
            },
            None => Err(String::from_str("No file selected")),
        };
        match target {
            Ok(path) => self.move_to(path, entries),
            Err(text) => Err(text),
        }
    }

    /// Moves to the parent of the current directory, which was read as
    /// `entries`. At the root, where there is no parent, and after a failed
    /// read nothing changes and the refusal is reported.
    pub fn go_to_parent(&mut self, entries: Result<Vec<FileEntry>, String>) -> (r: Result<(), String>)
        ensures
            match parent_of(old(self).current_dir@) {
                Some(dir) => match entries {
                    Ok(found) => r is Ok && final(self).is_listing_of(dir, found@),
                    Err(e) => r == Err::<(), String>(e) && *final(self) == *old(self),
                },
                None => *final(self) == *old(self) && (r matches Err(text) && text@
                    == "Already at root directory"@),
            },
    {
        match parent_of_path(self.current_dir.as_str()) {
            Some(dir) => self.move_to(dir, entries),
            None => Err(String::from_str("Already at root directory")),
        }
    }

    /// Moves to `dir` if it was read; hands a failed read back and changes
    /// nothing.
    fn move_to(&mut self, dir: String, entries: Result<Vec<FileEntry>, String>) -> (r: Result<
        (),
        String,
    >)
        ensures
            match entries {
                Ok(found) => r is Ok && final(self).is_listing_of(dir@, found@),
                Err(e) => r == Err::<(), String>(e) && *final(self) == *old(self),
            },
    {
        match entries {
            Ok(found) => {
                self.current_dir = dir;
                self.list(found);
                Ok(())
            },
            Err(e) => Err(e),
        }
    }

    pub fn set_search_query(&mut self, query: String)
        ensures
            final(self).is_update_of(old(self), query@),
    {
        self.search_query = query;
        self.update_filtered_files();
    }

    pub fn append_search_query(&mut self, c: char)
        ensures
            final(self).is_update_of(old(self), old(self).search_query@.push(c)),
    {
        self.search_query.push(c);
        self.update_filtered_files();
    }

    pub fn pop_search_query(&mut self)
        ensures
            final(self).is_update_of(old(self), without_last_char(old(self).search_query@)),
    {
        let _ = self.search_query.pop();
        self.update_filtered_files();
    }

    pub fn clear_search_query(&mut self)
        ensures
            final(self).is_update_of(old(self), Seq::empty()),
    {
        self.search_query = String::new();
        self.update_filtered_files();
    }

    /// Deletes the query back to its last space, or all of it when it holds
    /// none.
    pub fn delete_word_backward(&mut self)
        ensures
            final(self).is_update_of(old(self), without_last_word(old(self).search_query@)),
    {
        delete_last_word(&mut self.search_query);
        self.update_filtered_files();
    }

    pub fn delete_to_end(&mut self)
        ensures
            final(self).is_update_of(old(self), Seq::empty()),
    {
        self.search_query = String::new();
        self.update_filtered_files();
    }
}

/// Reading a directory twice with the same result gives the same listing in
/// the same order, the same filter and the same cursor.
pub proof fn lemma_same_reading_same_listing(
    first: AppState,
    second: AppState,
    dir: Seq<char>,
    found: Seq<FileEntry>,
)
    requires
        first.is_listing_of(dir, found),
        second.is_listing_of(dir, found),
    ensures
        first.current_dir@ == second.current_dir@,
        first.files@ == second.files@,
        first.filtered_files@ == second.filtered_files@,
        first.selected_index == second.selected_index,
        first.search_query@ == second.search_query@,
{
    lemma_directory_sorted_unique(found, first.files@, second.files@);
    assert(first.search_query@ =~= second.search_query@);
}

} // verus!
