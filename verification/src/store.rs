//! The store: the browser's state with a search that is switched on and
//! off.

use vstd::prelude::*;
use vstd::string::*;
use crate::config::Config;
use crate::cursor::in_bounds;
use crate::listing::{
    all_indices, indices_below, is_directory_sorted, search_indices, search_positions,
    sort_listing, Entry,
};
use crate::services::file_service::{parent_of, parent_of_path};
use crate::text::without_last_char;

verus! {

/// The state of the browser together with its settings.
#[derive(Debug)]
pub struct Store {
    pub state: AppState,
    pub config: Config,
}

/// A directory, its listing in directory order, the cursor, and a search that is
/// switched on and off: while it is on, only the files named by
/// `filtered_files` are shown.
#[derive(Debug)]
pub struct AppState {
    pub current_dir: String,
    pub files: Vec<FileEntry>,
    pub selected_index: usize,
    pub search_mode: bool,
    pub search_query: String,
    /// Positions in `files`.
    pub filtered_files: Vec<usize>,
}

/// One file system object.
#[derive(Debug, PartialEq, Eq)]
pub struct FileEntry {
    pub name: String,
    pub path: String,
    /// Size in bytes.
    pub size: u64,
    pub is_dir: bool,
    /// Seconds between the start of 1970 and the last change, where known.
    pub modified: Option<u64>,
}

impl Clone for FileEntry {
    fn clone(&self) -> (r: Self)
        ensures
            r == *self,
    {
        FileEntry {
            name: self.name.clone(),
            path: self.path.clone(),
            size: self.size,
            is_dir: self.is_dir,
            modified: self.modified,
        }
    }
}

impl Entry for FileEntry {
    open spec fn name_chars(&self) -> Seq<char> {
        self.name@
    }

    open spec fn path_chars(&self) -> Seq<char> {
        self.path@
    }

    fn entry_name(&self) -> (r: &str) {
        self.name.as_str()
    }

    fn entry_path(&self) -> (r: &str) {
        self.path.as_str()
    }

    fn duplicate(&self) -> (r: Self) {
        self.clone()
    }

    open spec fn is_dir_spec(&self) -> bool {
        self.is_dir
    }

    fn is_dir(&self) -> (r: bool) {
        self.is_dir
    }
}

/// The positions that a search shows: every position for the empty query,
/// else those of the files whose names contain the query, compared without
/// regard to case.
pub open spec fn search_filter(files: Seq<FileEntry>, query: Seq<char>) -> Seq<usize> {
    search_indices(files, query)
}

/// The cursor after a move by `direction` among `len` shown files: moved, but
/// kept between the first and the last of them.
pub open spec fn moved_by(index: int, direction: int, len: int) -> int {
    if len <= 0 {
        0
    } else if index + direction < 0 {
        0
    } else if index + direction > len - 1 {
        len - 1
    } else {
        index + direction
    }
}

/// A query after input arrived: empty input stands for Backspace, any other
/// input is appended.
pub open spec fn query_after_input(query: Seq<char>, input: Seq<char>) -> Seq<char> {
    if input.len() == 0 {
        without_last_char(query)
    } else {
        query + input
    }
}

impl AppState {
    /// The number of files shown.
    pub open spec fn visible_len(&self) -> int {
        if self.search_mode {
            self.filtered_files@.len() as int
        } else {
            self.files@.len() as int
        }
    }

    /// While the search is on the filter is that of the query; the cursor
    /// points at a shown file, or at zero when none is shown.
    pub open spec fn wf(&self) -> bool {
        &&& self.search_mode ==> self.filtered_files@ == search_filter(
            self.files@,
            self.search_query@,
        )
        &&& indices_below(self.filtered_files@, self.files@.len() as int)
        &&& in_bounds(self.selected_index as int, self.visible_len())
    }

    /// The file under the cursor.
    pub open spec fn selected_file(&self) -> Option<&FileEntry> {
        if self.search_mode {
            if self.selected_index < self.filtered_files@.len()
                && self.filtered_files@[self.selected_index as int] < self.files@.len() {
                Some(&self.files@[self.filtered_files@[self.selected_index as int] as int])
            } else {
                None
            }
        } else if self.selected_index < self.files@.len() {
            Some(&self.files@[self.selected_index as int])
        } else {
            None
        }
    }

    /// The state after the search was switched off: no query, no filter.
    pub open spec fn is_unfiltered(&self, before: &AppState, selected_index: int) -> bool {
        &&& !self.search_mode
        &&& self.search_query@.len() == 0
        &&& self.filtered_files@.len() == 0
        &&& self.selected_index == selected_index
        &&& self.files == before.files
        &&& self.current_dir == before.current_dir
    }

    /// The state after `dir` was read as `found`: the files in directory order,
    /// the cursor on the first, the search off.
    pub open spec fn is_listing_of(&self, before: &AppState, dir: Seq<char>, found: Seq<FileEntry>) -> bool {
        &&& self.current_dir@ == dir
        &&& is_directory_sorted(found, self.files@)
        &&& self.is_reset(before)
    }

    /// The cursor is on the first file and the search is off; a search that
    /// was on in `before` has lost its query and its filter.
    pub open spec fn is_reset(&self, before: &AppState) -> bool {
        &&& self.selected_index == 0
        &&& !self.search_mode
        &&& if before.search_mode {
            self.search_query@.len() == 0 && self.filtered_files@.len() == 0
        } else {
            self.search_query == before.search_query && self.filtered_files@.len() == 0
        }
    }
}

impl Store {
    /// See [`AppState::wf`].
    pub open spec fn wf(&self) -> bool {
        self.state.wf()
    }

    /// `after` is `before` with the cursor moved by `direction`.
    pub open spec fn moved(before: Store, direction: isize, after: Store) -> bool {
        &&& after.state.selected_index == moved_by(
            before.state.selected_index as int,
            direction as int,
            before.state.visible_len(),
        )
        &&& after.config == before.config
        &&& after.state.current_dir == before.state.current_dir
        &&& after.state.files == before.state.files
        &&& after.state.search_mode == before.state.search_mode
        &&& after.state.search_query == before.state.search_query
        &&& after.state.filtered_files == before.state.filtered_files
    }

    /// Entering the selected directory: the store lists it when the working
    /// directory was changed and the directory was read; without a selection,
    /// with a file selected, or after a failure it stays as it was and `r`
    /// tells why.
    pub open spec fn entered_directory(
        before: Store,
        changed: Result<(), String>,
        entries: Result<Vec<FileEntry>, String>,
        after: Store,
        r: Result<(), String>,
    ) -> bool {
        &&& after.config == before.config
        &&& match before.state.selected_file() {
            None => after == before && (r matches Err(text) && text@ == "No file selected"@),
            Some(file) => if !file.is_dir {
                after == before && (r matches Err(text) && text@
                    == "Selected item is not a directory"@)
            } else {
                match (changed, entries) {
                    (Err(e), _) => after == before && (r matches Err(text) && text@
                        == "Failed to enter directory: "@ + e@),
                    (Ok(_), Err(e)) => after == before && (r matches Err(text)
                        && text@ == "Failed to load directory contents: "@ + e@),
                    (Ok(_), Ok(found)) => r is Ok && after.state.is_listing_of(
                        &before.state,
                        file.path@,
                        found@,
                    ),
                }
            }
        }
    }

    /// Moving to the parent directory: the store lists it when there is one,
    /// the working directory was changed and the directory was read; else it
    /// stays as it was and `r` tells why.
    pub open spec fn went_back(
        before: Store,
        changed: Result<(), String>,
        entries: Result<Vec<FileEntry>, String>,
        after: Store,
        r: Result<(), String>,
    ) -> bool {
        &&& after.config == before.config
        &&& match parent_of(before.state.current_dir@) {
            None => after == before && (r matches Err(text) && text@
                == "Already at the root directory"@),
            Some(dir) => match (changed, entries) {
                (Err(e), _) => after == before && (r matches Err(text) && text@
                    == "Failed to go back: "@ + e@),
                (Ok(_), Err(e)) => after == before && (r matches Err(text) && text@
                    == "Failed to load parent directory: "@ + e@),
                (Ok(_), Ok(found)) => r is Ok && after.state.is_listing_of(
                    &before.state,
                    dir,
                    found@,
                ),
            }
        }
    }

    /// A new reading of the current directory: the cursor is on the first
    /// file, a search that was on has ended, and the entries are listed
    /// directories first, then by name without regard to case. A failed
    /// read is handed back and changes nothing.
    pub open spec fn loaded(
        before: Store,
        entries: Result<Vec<FileEntry>, String>,
        after: Store,
        r: Result<(), String>,
    ) -> bool {
        match entries {
            Ok(found) => {
                &&& r is Ok
                &&& after.config == before.config
                &&& after.state.current_dir == before.state.current_dir
                &&& after.state.is_listing_of(&before.state, before.state.current_dir@, found@)
                &&& after.state.files@.len() == found@.len()
            },
            Err(e) => r == Err::<(), String>(e) && after == before,
        }
    }

    /// `after` is `before` with the search switched on, the query empty, every
    /// file shown and the cursor on the first.
    pub open spec fn search_entered(before: Store, after: Store) -> bool {
        &&& after.state.search_mode
        &&& after.state.search_query@.len() == 0
        &&& after.state.filtered_files@ == all_indices(before.state.files@.len() as int)
        &&& after.state.selected_index == 0
        &&& after.state.files == before.state.files
        &&& after.state.current_dir == before.state.current_dir
        &&& after.config == before.config
    }

    /// `after` is `before` with the search switched off.
    pub open spec fn search_left(before: Store, after: Store) -> bool {
        &&& after.state.is_unfiltered(
            &before.state,
            if before.state.files@.len() == 0 {
                0
            } else if before.state.selected_index >= before.state.files@.len() {
                before.state.files@.len() - 1
            } else {
                before.state.selected_index as int
            },
        )
        &&& after.config == before.config
    }

    /// Search input: empty input removes the last character of the query, any
    /// other input is appended; the filter is that of the new query and the
    /// cursor is on the first match.
    pub open spec fn took_input(before: Store, input: String, after: Store) -> bool {
        &&& after.state.search_query@ == query_after_input(
            before.state.search_query@,
            input@,
        )
        &&& after.state.filtered_files@ == search_filter(
            before.state.files@,
            after.state.search_query@,
        )
        &&& after.state.selected_index == 0
        &&& after.state.files == before.state.files
        &&& after.state.current_dir == before.state.current_dir
        &&& after.state.search_mode == before.state.search_mode
        &&& after.config == before.config
        &&& indices_below(after.state.filtered_files@, after.state.files@.len() as int)
    }

    /// Ending the search on the match under the cursor: the search is off and
    /// the cursor is on that file in the full listing; without a match under
    /// the cursor nothing changes.
    pub open spec fn match_selected(before: Store, after: Store) -> bool {
        &&& after.config == before.config
        &&& if before.state.search_mode && before.state.selected_index
            < before.state.filtered_files@.len()
            && before.state.filtered_files@[before.state.selected_index as int]
            < before.state.files@.len() {
            after.state.is_unfiltered(
                &before.state,
                before.state.filtered_files@[before.state.selected_index as int] as int,
            ) && after.wf()
        } else {
            after == before
        }
    }

    /// Starts in `current_dir` with the given settings and the entries that
    /// were read of the directory. A failed read is handed back.
    pub fn new(current_dir: String, config: Config, entries: Result<Vec<FileEntry>, String>) -> (r:
        Result<Self, String>)
        ensures
            match entries {
                Ok(found) => r matches Ok(store) && store.config == config
                    && store.state.current_dir == current_dir && is_directory_sorted(
                    found@,
                    store.state.files@,
                ) && store.state.selected_index == 0 && !store.state.search_mode
                    && store.state.search_query@.len() == 0
                    && store.state.filtered_files@.len() == 0 && store.wf(),
                Err(e) => r == Err::<Self, String>(e),
            },
    {
        let mut store = Store {
            state: AppState {
                current_dir,
                files: Vec::new(),
                selected_index: 0,
                search_mode: false,
                search_query: String::new(),
                filtered_files: Vec::new(),
            },
            config,
        };
        match store.load_files(entries) {
            Ok(_) => Ok(store),
            Err(e) => Err(e),
        }
    }

    /// Moves the cursor by `direction` among the shown files and keeps it
    /// between the first and the last of them.
    pub fn move_selection(&mut self, direction: isize)
        ensures
            Store::moved(*old(self), direction, *final(self)),
            old(self).wf() ==> final(self).wf(),
    {
        let max_items: usize = if self.state.search_mode {
            self.state.filtered_files.len()
        } else {
            self.state.files.len()
        };
        if max_items == 0 {
            self.state.selected_index = 0;
            return ;
        }
        let target: i128 = self.state.selected_index as i128 + direction as i128;
        let last: i128 = (max_items - 1) as i128;
        self.state.selected_index = if target < 0 {
            0
        } else if target > last {
            max_items - 1
        } else {
            target as usize
        };
    }

    /// Enters the directory under the cursor. `changed` tells whether the
    /// process could make it its working directory, `entries` is what
    /// reading it gave. Any refusal or failure leaves the store as it was.
    pub fn enter_directory(
        &mut self,
        changed: Result<(), String>,
        entries: Result<Vec<FileEntry>, String>,
    ) -> (r: Result<(), String>)
        ensures
            Store::entered_directory(*old(self), changed, entries, *final(self), r),
    {
        let target = match self.get_selected_file() {
            Some(selected_file) => {
                if selected_file.is_dir {
                    Ok(selected_file.path.clone())
                } else {
                    Err(String::from_str("Selected item is not a directory"))
                }
            },
            None => Err(String::from_str("No file selected")),
        };
        match target {
            Ok(path) => self.move_to(
                path,
                changed,
                entries,
                "Failed to enter directory: ",
                "Failed to load directory contents: ",
            ),
            Err(text) => Err(text),
        }
    }

    /// Moves to the parent of the current directory; `changed` and `entries`
    /// are as for `enter_directory`. At the root nothing changes.
    pub fn go_back(&mut self, changed: Result<(), String>, entries: Result<Vec<FileEntry>, String>) -> (r:
        Result<(), String>)
        ensures
            Store::went_back(*old(self), changed, entries, *final(self), r),
    {
        match parent_of_path(self.state.current_dir.as_str()) {
            Some(dir) => self.move_to(
                dir,
                changed,
                entries,
                "Failed to go back: ",
                "Failed to load parent directory: ",
            ),
            None => Err(String::from_str("Already at the root directory")),
        }
    }

    /// Moves to `dir` if the working directory was changed and the listing
    /// was read; else reports which of the two failed, under the given
    /// headings.
    fn move_to(
        &mut self,
        dir: String,
        changed: Result<(), String>,
        entries: Result<Vec<FileEntry>, String>,
        not_changed: &str,
        not_read: &str,
    ) -> (r: Result<(), String>)
        ensures
            final(self).config == old(self).config,
            match (changed, entries) {
                (Err(e), _) => *final(self) == *old(self) && (r matches Err(text) && text@
                    == not_changed@ + e@),
                (Ok(_), Err(e)) => *final(self) == *old(self) && (r matches Err(text) && text@
                    == not_read@ + e@),
                (Ok(_), Ok(found)) => r is Ok && final(self).state.is_listing_of(
                    &old(self).state,
                    dir@,
                    found@,
                ),
            },
    {
        match changed {
            Err(e) => {
                let mut text = String::from_str(not_changed);
                text.append(e.as_str());
                Err(text)
            },
            Ok(_) => match entries {
                Err(e) => {
                    let mut text = String::from_str(not_read);
                    text.append(e.as_str());
                    Err(text)
                },
                Ok(found) => {
                    self.state.current_dir = dir;
                    let _ = self.load_files(Ok(found));
                    Ok(())
                },
            },
        }
    }

    /// Takes a new reading of the current directory: puts the cursor on the
    /// first file, ends a search that was on, and lists the entries
    /// directories first, then by name without regard to case. A failed
    /// read is handed back and changes nothing.
    pub fn load_files(&mut self, entries: Result<Vec<FileEntry>, String>) -> (r: Result<(), String>)
        ensures
            Store::loaded(*old(self), entries, *final(self), r),
            r is Ok ==> final(self).wf(),
            old(self).wf() ==> final(self).wf(),
    {
        match entries {
            Ok(found) => {
                self.state.files = sort_listing(&found);
                self.state.selected_index = 0;
                if self.state.search_mode {
                    self.state.search_mode = false;
                    self.state.search_query = String::new();
                }
                self.state.filtered_files = Vec::new();
                Ok(())
            },
            Err(e) => Err(e),
        }
    }

    /// The file under the cursor: among the filtered files while the search
    /// is on, among all files otherwise.
    pub fn get_selected_file(&self) -> (r: Option<&FileEntry>)
        ensures
            r == self.state.selected_file(),
    {
        if self.state.search_mode {
            if self.state.selected_index < self.state.filtered_files.len() {
                let actual_index = self.state.filtered_files[self.state.selected_index];
                if actual_index < self.state.files.len() {
                    Some(&self.state.files[actual_index])
                } else {
                    None
                }
            } else {
                None
            }
        } else if self.state.selected_index < self.state.files.len() {
            Some(&self.state.files[self.state.selected_index])
        } else {
            None
        }
    }

    /// Switches the search on with an empty query, which shows every file.
    pub fn enter_search_mode(&mut self)
        ensures
            Store::search_entered(*old(self), *final(self)),
            final(self).wf(),
    {
        self.state.search_mode = true;
        self.state.search_query = String::new();
        self.state.selected_index = 0;
        self.update_search_filter();
    }

    /// Switches the search off and shows all files again, the cursor kept
    /// where it stood as far as the listing reaches.
    pub fn exit_search_mode(&mut self)
        ensures
            Store::search_left(*old(self), *final(self)),
            final(self).wf(),
    {
        self.state.search_mode = false;
        self.state.search_query = String::new();
        self.state.filtered_files = Vec::new();
        if self.state.files.len() > 0 {
            if self.state.selected_index > self.state.files.len() - 1 {
                self.state.selected_index = self.state.files.len() - 1;
            }
        } else {
            self.state.selected_index = 0;
        }
    }

    /// Takes search input: empty input removes the last character of the
    /// query, any other input is appended to it. The filter follows and the
    /// cursor goes to the first match.
    pub fn handle_search_input(&mut self, input: String)
        ensures
            Store::took_input(*old(self), input, *final(self)),
    {
        if input.as_str().is_empty() {
            let _ = self.state.search_query.pop();
        } else {
            self.state.search_query.append(input.as_str());
        }
        self.update_search_filter();
        self.state.selected_index = 0;
    }

    /// Computes the filter anew.
    fn update_search_filter(&mut self)
        ensures
            final(self).state.filtered_files@ == search_filter(
                old(self).state.files@,
                old(self).state.search_query@,
            ),
            indices_below(final(self).state.filtered_files@, final(self).state.files@.len() as int),
            final(self).state.files == old(self).state.files,
            final(self).state.current_dir == old(self).state.current_dir,
            final(self).state.search_mode == old(self).state.search_mode,
            final(self).state.search_query == old(self).state.search_query,
            final(self).state.selected_index == old(self).state.selected_index,
            final(self).config == old(self).config,
    {
        self.state.filtered_files = search_positions(
            &self.state.files,
            self.state.search_query.as_str(),
        );
    }

    /// Ends the search on the match under the cursor: the search is switched
    /// off and the cursor stays on that file in the full listing. Without a
    /// match under the cursor nothing changes.
    pub fn select_first_match(&mut self)
        ensures
            Store::match_selected(*old(self), *final(self)),
    {
        if self.state.search_mode && self.state.selected_index < self.state.filtered_files.len() {
            let actual_file_index = self.state.filtered_files[self.state.selected_index];
            if actual_file_index < self.state.files.len() {
                self.state.search_mode = false;
                self.state.search_query = String::new();
                self.state.filtered_files = Vec::new();
                self.state.selected_index = actual_file_index;
            }
        }
    }
}

} // verus!
