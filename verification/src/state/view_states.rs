//! The views of the screen and the data sources behind them.

use vstd::prelude::*;
use vstd::string::*;
use crate::cursor::{clamp, clamped, in_bounds, moved_down, moved_up, step_down, step_up};
use crate::fuzzy::{fuzzy_score, saturated};
use crate::listing::{
    fuzzy_indices, fuzzy_positions, pick, picked, search_indices, search_positions,
};
use crate::model::FileEntry;
use crate::text::{delete_last_word, without_last_char, without_last_word};

verus! {

/// The query line shared by Search and FuzzyFind.
#[derive(Debug)]
pub struct SearchInputViewState {
    pub query: String,
}

impl SearchInputViewState {
    pub fn new() -> (r: Self)
        ensures
            r.query@.len() == 0,
    {
        SearchInputViewState { query: String::new() }
    }

    pub fn set_query(&mut self, query: String)
        ensures
            final(self).query == query,
    {
        self.query = query;
    }

    pub fn append_to_query(&mut self, c: char)
        ensures
            final(self).query@ == old(self).query@.push(c),
    {
        self.query.push(c);
    }

    pub fn pop_from_query(&mut self)
        ensures
            final(self).query@ == without_last_char(old(self).query@),
    {
        let _ = self.query.pop();
    }

    pub fn clear_query(&mut self)
        ensures
            final(self).query@ == Seq::<char>::empty(),
    {
        self.query = String::new();
    }

    /// Deletes the query back to its last space, or all of it when it holds
    /// none.
    pub fn delete_word_backward(&mut self)
        ensures
            final(self).query@ == without_last_word(old(self).query@),
    {
        delete_last_word(&mut self.query);
    }

    pub fn delete_to_end(&mut self)
        ensures
            final(self).query@ == Seq::<char>::empty(),
    {
        self.query = String::new();
    }

    /// A search is active while the query holds a character.
    pub fn is_active(&self) -> (r: bool)
        ensures
            r == (self.query@.len() > 0),
    {
        !self.query.as_str().is_empty()
    }
}

/// The list of shown files with its cursor and its title.
#[derive(Debug)]
pub struct FileListViewState {
    pub files: Vec<FileEntry>,
    pub selected_index: usize,
    pub title: String,
}

impl FileListViewState {
    /// The cursor points at a shown file, or at zero when none is shown.
    pub open spec fn wf(&self) -> bool {
        in_bounds(self.selected_index as int, self.files@.len() as int)
    }

    pub fn new() -> (r: Self)
        ensures
            r.files@.len() == 0,
            r.selected_index == 0,
            r.title@ == "Files"@,
            r.wf(),
    {
        FileListViewState { files: Vec::new(), selected_index: 0, title: String::from_str("Files") }
    }

    /// Replaces the shown files and clamps the cursor to them.
    pub fn set_files(&mut self, files: Vec<FileEntry>, title: String)
        ensures
            final(self).files == files,
            final(self).title == title,
            final(self).selected_index == clamped(
                old(self).selected_index as int,
                files@.len() as int,
            ),
            final(self).wf(),
    {
        self.files = files;
        self.title = title;
        self.selected_index = clamp(self.selected_index, self.files.len());
    }

    pub fn move_selection_up(&mut self)
        ensures
            final(self).selected_index == moved_up(old(self).selected_index as int),
            final(self).files == old(self).files,
            final(self).title == old(self).title,
            old(self).wf() ==> final(self).wf(),
    {
        self.selected_index = step_up(self.selected_index);
    }

    pub fn move_selection_down(&mut self)
        ensures
            final(self).selected_index == moved_down(
                old(self).selected_index as int,
                old(self).files@.len() as int,
            ),
            final(self).files == old(self).files,
            final(self).title == old(self).title,
            old(self).wf() ==> final(self).wf(),
    {
        self.selected_index = step_down(self.selected_index, self.files.len());
    }

    /// The file under the cursor.
    pub fn get_selected_file(&self) -> (r: Option<&FileEntry>)
        ensures
            match r {
                Some(file) => self.selected_index < self.files@.len() && *file
                    == self.files@[self.selected_index as int],
                None => self.selected_index >= self.files@.len(),
            },
    {
        self.get_file(self.selected_index)
    }

    /// The shown file at `index`.
    pub fn get_file(&self, index: usize) -> (r: Option<&FileEntry>)
        ensures
            match r {
                Some(file) => index < self.files@.len() && *file == self.files@[index as int],
                None => index >= self.files@.len(),
            },
    {
        if index < self.files.len() {
            Some(&self.files[index])
        } else {
            None
        }
    }

    pub fn files_len(&self) -> (r: usize)
        ensures
            r == self.files@.len(),
    {
        self.files.len()
    }

    pub fn has_files(&self) -> (r: bool)
        ensures
            r == (self.files@.len() > 0),
    {
        self.files.len() > 0
    }
}

/// Title and content of the preview of the selected file.
#[derive(Debug)]
pub struct FileDetailViewState {
    pub title: String,
    pub content: String,
}

impl FileDetailViewState {
    /// The preview shows that nothing is selected.
    pub open spec fn is_blank(&self) -> bool {
        &&& self.title@ == "No Selection"@
        &&& self.content@ == "No file or directory selected"@
    }

    pub fn new() -> (r: Self)
        ensures
            r.is_blank(),
    {
        FileDetailViewState {
            title: String::from_str("No Selection"),
            content: String::from_str("No file or directory selected"),
        }
    }

    pub fn set_file_details(&mut self, title: String, content: String)
        ensures
            final(self).title == title,
            final(self).content == content,
    {
        self.title = title;
        self.content = content;
    }

    pub fn clear(&mut self)
        ensures
            final(self).is_blank(),
    {
        self.title = String::from_str("No Selection");
        self.content = String::from_str("No file or directory selected");
    }
}

/// The current directory and its listing.
#[derive(Debug)]
pub struct NavigationData {
    pub current_dir: String,
    pub files: Vec<FileEntry>,
}

impl NavigationData {
    /// Starts in `current_dir` with nothing listed yet.
    pub fn new(current_dir: String) -> (r: Self)
        ensures
            r.current_dir == current_dir,
            r.files@.len() == 0,
    {
        NavigationData { current_dir, files: Vec::new() }
    }

    pub fn update(&mut self, current_dir: String, files: Vec<FileEntry>)
        ensures
            final(self).current_dir == current_dir,
            final(self).files == files,
    {
        self.current_dir = current_dir;
        self.files = files;
    }

    /// The entries whose names contain the query, compared without regard to
    /// case, in listing order; all of them for the empty query.
    pub fn filter_files(&self, query: &str) -> (r: Vec<FileEntry>)
        ensures
            r@ == picked(self.files@, search_indices(self.files@, query@)),
    {
        let shown = search_positions(&self.files, query);
        pick(&self.files, &shown)
    }
}

/// The file set of a recursive scan.
#[derive(Debug)]
pub struct FuzzyFindData {
    pub all_files: Vec<FileEntry>,
    pub is_indexing: bool,
}

impl FuzzyFindData {
    pub fn new() -> (r: Self)
        ensures
            r.all_files@.len() == 0,
            !r.is_indexing,
    {
        FuzzyFindData { all_files: Vec::new(), is_indexing: false }
    }

    /// Discards the previous file set.
    pub fn start_indexing(&mut self)
        ensures
            final(self).is_indexing,
            final(self).all_files@.len() == 0,
    {
        self.is_indexing = true;
        self.all_files = Vec::new();
    }

    pub fn add_files(&mut self, files: Vec<FileEntry>)
        ensures
            final(self).all_files@ == old(self).all_files@ + files@,
            final(self).is_indexing == old(self).is_indexing,
    {
        let mut files = files;
        self.all_files.append(&mut files);
    }

    pub fn finish_indexing(&mut self)
        ensures
            !final(self).is_indexing,
            final(self).all_files == old(self).all_files,
    {
        self.is_indexing = false;
    }

    /// The scanned files that the query does not reject, best score first,
    /// equal scores in scan order; all of them for the empty query.
    pub fn fuzzy_filter_files(&self, query: &str) -> (r: Vec<FileEntry>)
        ensures
            r@ == picked(self.all_files@, fuzzy_indices(self.all_files@, query@)),
    {
        let shown = fuzzy_positions(&self.all_files, query);
        pick(&self.all_files, &shown)
    }

    /// Scores a path against a query; 0 rejects it.
    pub fn fuzzy_match(&self, text: &str, pattern: &str) -> (score: i32)
        ensures
            score == saturated(fuzzy_score(text@, pattern@)),
    {
        crate::fuzzy::fuzzy_match(text, pattern)
    }

    pub fn total_count(&self) -> (r: usize)
        ensures
            r == self.all_files@.len(),
    {
        self.all_files.len()
    }

    pub fn clear(&mut self)
        ensures
            final(self).all_files@ == Seq::<FileEntry>::empty(),
            !final(self).is_indexing,
    {
        self.all_files = Vec::new();
        self.is_indexing = false;
    }
}

} // verus!
