//! The browser's state as a set of views over the data.

use vstd::prelude::*;
use vstd::string::*;
use crate::cursor::{clamped, in_bounds, moved_down, moved_up};
use crate::errors::ClazyfilerError;
use crate::listing::{fuzzy_indices, lemma_pick_all, picked, search_indices};
use crate::model::{
    at_root_error, detail_title, fuzzy_title, no_selection_error, not_a_directory_error,
    preview_title,
};
use crate::services::file_service::{parent_of, parent_of_path};
use crate::state::view_states::{
    FileDetailViewState, FileListViewState, FuzzyFindData, NavigationData, SearchInputViewState,
};
use crate::text::{decimal_string, without_last_char, without_last_word};

pub use crate::model::FileEntry;

verus! {

/// What the file list shows: the current directory, a search in it, or a
/// fuzzy search over the scanned files.
#[derive(Debug, Clone, Copy, PartialEq, Eq)]
pub enum ListView {
    Explore,
    Search,
    FuzzyFind,
}

/// The browser's state as a set of views and the data behind them: the query
/// line, the file list, the preview, the current directory and the file set
/// of a fuzzy search. The state records which view the file list shows and
/// fills the list anew whenever the query or the data behind it change. The
/// preview is filled by `update_file_detail_view`, which the host calls with
/// the content it read for the selected file.
#[derive(Debug)]
pub struct AppState {
    pub search_input_view: SearchInputViewState,
    pub file_list_view: FileListViewState,
    pub file_detail_view: FileDetailViewState,
    pub navigation_data: NavigationData,
    pub fuzzy_find_data: FuzzyFindData,
    /// The view that the file list shows.
    pub shown: ListView,
}

/// The state as the contracts speak of it.
pub ghost struct StateView {
    pub query: Seq<char>,
    pub shown: ListView,
    pub files: Seq<FileEntry>,
    pub title: Seq<char>,
    pub selected_index: int,
    pub detail_title: Seq<char>,
    pub detail_content: Seq<char>,
    pub current_dir: Seq<char>,
    pub directory_files: Seq<FileEntry>,
    pub scanned_files: Seq<FileEntry>,
    pub is_indexing: bool,
}

/// The files that a view shows for a query: the entries of the directory
/// whose names contain the query, or the scanned files ranked against it.
pub open spec fn view_files(
    shown: ListView,
    directory: Seq<FileEntry>,
    scanned: Seq<FileEntry>,
    query: Seq<char>,
) -> Seq<FileEntry> {
    match shown {
        ListView::Explore => picked(directory, search_indices(directory, query)),
        ListView::Search => picked(directory, search_indices(directory, query)),
        ListView::FuzzyFind => picked(scanned, fuzzy_indices(scanned, query)),
    }
}

/// The title of the file list under a view.
pub open spec fn view_title(shown: ListView, dir: Seq<char>, is_indexing: bool, total: nat) -> Seq<
    char,
> {
    match shown {
        ListView::Explore => "Files - "@ + dir,
        ListView::Search => "Search - "@ + dir,
        ListView::FuzzyFind => fuzzy_title(is_indexing, total),
    }
}

impl StateView {
    /// The file list is that of the recorded view and the query, under the
    /// view's title, and the cursor points at a shown file, or at zero when
    /// none is shown.
    pub open spec fn wf(self) -> bool {
        &&& self.files == view_files(
            self.shown,
            self.directory_files,
            self.scanned_files,
            self.query,
        )
        &&& self.title == view_title(
            self.shown,
            self.current_dir,
            self.is_indexing,
            self.scanned_files.len(),
        )
        &&& in_bounds(self.selected_index, self.files.len() as int)
    }

    /// The state with the file list filled anew and the cursor clamped to it.
    pub open spec fn refreshed(self) -> StateView {
        let files = view_files(self.shown, self.directory_files, self.scanned_files, self.query);
        StateView {
            files,
            title: view_title(
                self.shown,
                self.current_dir,
                self.is_indexing,
                self.scanned_files.len(),
            ),
            selected_index: clamped(self.selected_index, files.len() as int),
            ..self
        }
    }

    /// The state after the query was replaced.
    pub open spec fn with_query(self, query: Seq<char>) -> StateView {
        StateView { query, ..self }.refreshed()
    }

    /// The state with the file list showing another view.
    pub open spec fn showing(self, shown: ListView) -> StateView {
        StateView { shown, ..self }.refreshed()
    }

    /// The state on arrival in a directory with the given listing: the
    /// Explore view of the whole listing, the cursor on its first entry, no
    /// query, no scanned files. The preview waits for the host.
    pub open spec fn arrived(self, dir: Seq<char>, listing: Seq<FileEntry>) -> StateView {
        StateView {
            query: Seq::empty(),
            shown: ListView::Explore,
            selected_index: 0,
            current_dir: dir,
            directory_files: listing,
            scanned_files: Seq::empty(),
            is_indexing: false,
            ..self
        }.refreshed()
    }

    /// The state after the current directory was read again: the Explore
    /// view of the new listing.
    pub open spec fn relisted(self, listing: Seq<FileEntry>) -> StateView {
        StateView { shown: ListView::Explore, directory_files: listing, ..self }.refreshed()
    }

    /// The state on entering a fuzzy search over the files that a scan
    /// delivered: the query starts empty, so every scanned file is shown, in
    /// scan order.
    pub open spec fn scanned(self, found: Seq<FileEntry>) -> StateView {
        StateView {
            query: Seq::empty(),
            shown: ListView::FuzzyFind,
            scanned_files: found,
            is_indexing: false,
            ..self
        }.refreshed()
    }

    /// The file under the cursor, if there is one.
    pub open spec fn selected_file(self) -> Option<FileEntry> {
        if 0 <= self.selected_index < self.files.len() {
            Some(self.files[self.selected_index])
        } else {
            None
        }
    }
}

impl View for AppState {
    type V = StateView;

    open spec fn view(&self) -> StateView {
        StateView {
            query: self.search_input_view.query@,
            shown: self.shown,
            files: self.file_list_view.files@,
            title: self.file_list_view.title@,
            selected_index: self.file_list_view.selected_index as int,
            detail_title: self.file_detail_view.title@,
            detail_content: self.file_detail_view.content@,
            current_dir: self.navigation_data.current_dir@,
            directory_files: self.navigation_data.files@,
            scanned_files: self.fuzzy_find_data.all_files@,
            is_indexing: self.fuzzy_find_data.is_indexing,
        }
    }
}

/// Arrival in a directory shows its whole listing with the cursor on the
/// first entry and leaves no query behind, wherever the cursor stood before.
pub proof fn lemma_arrival_shows_listing(v: StateView, dir: Seq<char>, listing: Seq<FileEntry>)
    requires
        listing.len() <= usize::MAX,
    ensures
        v.arrived(dir, listing).files == listing,
        v.arrived(dir, listing).selected_index == 0,
        v.arrived(dir, listing).query.len() == 0,
        v.arrived(dir, listing).current_dir == dir,
        v.arrived(dir, listing).wf(),
{
    lemma_pick_all(listing);
}

impl AppState {
    /// Well formed: see [`StateView::wf`].
    pub open spec fn wf(&self) -> bool {
        self@.wf()
    }

    /// Starts in `current_dir` with the listing that was read of it. When
    /// the read failed, nothing is listed.
    pub fn new(current_dir: String, listing: Result<Vec<FileEntry>, ClazyfilerError>) -> (r: Self)
        ensures
            r@.current_dir == current_dir@,
            r@.shown == ListView::Explore,
            r@.query.len() == 0,
            r@.scanned_files.len() == 0,
            !r@.is_indexing,
            r.file_detail_view.is_blank(),
            r@.selected_index == 0,
            match listing {
                Ok(files) => r@.directory_files == files@ && r@.files == files@,
                Err(_) => r@.directory_files.len() == 0 && r@.files.len() == 0,
            },
            r.wf(),
    {
        let mut state = AppState {
            search_input_view: SearchInputViewState::new(),
            file_list_view: FileListViewState::new(),
            file_detail_view: FileDetailViewState::new(),
            navigation_data: NavigationData::new(current_dir),
            fuzzy_find_data: FuzzyFindData::new(),
            shown: ListView::Explore,
        };
        if let Ok(files) = listing {
            state.navigation_data.files = files;
        }
        let _ = state.navigation_data.files.len();
        proof {
            lemma_pick_all(state.navigation_data.files@);
        }
        state.refresh_view();
        state
    }

    /// Fills the file list anew for the recorded view and clamps the cursor
    /// to it.
    fn refresh_view(&mut self)
        ensures
            final(self)@ == old(self)@.refreshed(),
            final(self).wf(),
    {
        let (files, title) = match self.shown {
            ListView::Explore => {
                let mut title = String::from_str("Files - ");
                title.append(self.navigation_data.current_dir.as_str());
                (self.navigation_data.filter_files(self.search_input_view.query.as_str()), title)
            },
            ListView::Search => {
                let mut title = String::from_str("Search - ");
                title.append(self.navigation_data.current_dir.as_str());
                (self.navigation_data.filter_files(self.search_input_view.query.as_str()), title)
            },
            ListView::FuzzyFind => {
                let count = decimal_string(self.fuzzy_find_data.total_count() as u64);
                let title = if self.fuzzy_find_data.is_indexing {
                    let mut title = String::from_str("\u{1f50d} Fuzzy Find - Indexing... (");
                    title.append(count.as_str());
                    title.append(" files)");
                    title
                } else {
                    let mut title = String::from_str("\u{1f50d} Fuzzy Find - ");
                    title.append(count.as_str());
                    title.append(" total files");
                    title
                };
                (
                    self.fuzzy_find_data.fuzzy_filter_files(self.search_input_view.query.as_str()),
                    title,
                )
            },
        };
        self.file_list_view.set_files(files, title);
    }

    /// Shows the Explore view: the current directory, narrowed by the query
    /// if there is one.
    pub fn update_explore_view(&mut self)
        ensures
            final(self)@ == old(self)@.showing(ListView::Explore),
            final(self).wf(),
    {
        self.shown = ListView::Explore;
        self.refresh_view();
    }

    /// Shows the Search view: the entries of the current directory whose
    /// names contain the query.
    pub fn update_search_view(&mut self)
        ensures
            final(self)@ == old(self)@.showing(ListView::Search),
            final(self).wf(),
    {
        self.shown = ListView::Search;
        self.refresh_view();
    }

    /// Shows the FuzzyFind view: the scanned files ranked against the query.
    pub fn update_fuzzy_find_view(&mut self)
        ensures
            final(self)@ == old(self)@.showing(ListView::FuzzyFind),
            final(self).wf(),
    {
        self.shown = ListView::FuzzyFind;
        self.refresh_view();
    }

    /// Fills the preview for the selected file with the content that was
    /// read for it, or with the reason why it could not be read. Without a
    /// selection the preview says so.
    pub fn update_file_detail_view(&mut self, content: Result<String, ClazyfilerError>)
        ensures
            match old(self)@.selected_file() {
                Some(file) => final(self)@ == (StateView {
                    detail_title: detail_title(file),
                    detail_content: match content {
                        Ok(read) => read@,
                        Err(e) => "\u{274c} Error reading file: "@ + e.message_chars(),
                    },
                    ..old(self)@
                }),
                None => final(self).file_detail_view.is_blank() && final(self)@ == (StateView {
                    detail_title: final(self)@.detail_title,
                    detail_content: final(self)@.detail_content,
                    ..old(self)@
                }),
            },
            old(self).wf() ==> final(self).wf(),
    {
        match self.file_list_view.get_selected_file() {
            Some(selected_file) => {
                let title = preview_title(selected_file);
                let text = match content {
                    Ok(read) => read,
                    Err(e) => {
                        let mut text = String::from_str("\u{274c} Error reading file: ");
                        let reason = e.message();
                        text.append(reason.as_str());
                        text
                    },
                };
                self.file_detail_view.set_file_details(title, text);
            },
            None => {
                self.file_detail_view.clear();
            },
        }
    }

    /// Enters the directory under the cursor, whose listing was read as
    /// `listing`. Without a selection, with a file selected, or after a
    /// failed read nothing changes and the refusal is reported.
    pub fn enter_directory(&mut self, listing: Result<Vec<FileEntry>, ClazyfilerError>) -> (r: Result<
        (),
        ClazyfilerError,
    >)
        ensures
            match old(self)@.selected_file() {
                Some(file) => if file.is_directory {
                    match listing {
                        Ok(files) => {
                            &&& r is Ok
                            &&& final(self)@ == old(self)@.arrived(file.path@, files@)
                            &&& final(self)@.selected_index == 0
                            &&& final(self)@.query.len() == 0
                            &&& final(self)@.files == files@
                            &&& final(self).wf()
                        },
                        Err(e) => r == Err::<(), ClazyfilerError>(e) && *final(self) == *old(self),
                    }
                } else {
                    *final(self) == *old(self) && not_a_directory_error(r, file.path@)
                },
                None => *final(self) == *old(self) && no_selection_error(
                    r,
                    old(self)@.current_dir,
                ),
            },
    {
        let target = match self.file_list_view.get_selected_file() {
            Some(selected_file) => {
                if selected_file.is_directory {
                    Ok(selected_file.path.clone())
                } else {
                    Err(
                        ClazyfilerError::navigation(
                            selected_file.path.as_str(),
                            "Selected item is not a directory",
                        ),
                    )
                }
            },
            None => Err(
                ClazyfilerError::navigation(
                    self.navigation_data.current_dir.as_str(),
                    "No file selected",
                ),
            ),
        };
        match target {
            Ok(new_dir) => self.change_directory(new_dir, listing),
            Err(e) => Err(e),
        }
    }

    /// Moves to the parent of the current directory; `listing` is what
    /// reading the parent gave. At the root, where there is no parent, and
    /// after a failed read nothing changes and the refusal is reported.
    pub fn go_to_parent(&mut self, listing: Result<Vec<FileEntry>, ClazyfilerError>) -> (r: Result<
        (),
        ClazyfilerError,
    >)
        ensures
            match (parent_of(old(self)@.current_dir), listing) {
                (Some(dir), Ok(files)) => {
                    &&& r is Ok
                    &&& final(self)@ == old(self)@.arrived(dir, files@)
                    &&& final(self)@.selected_index == 0
                    &&& final(self)@.query.len() == 0
                    &&& final(self)@.files == files@
                    &&& final(self).wf()
                },
                (Some(_), Err(e)) => r == Err::<(), ClazyfilerError>(e) && *final(self) == *old(self),
                (None, _) => *final(self) == *old(self) && at_root_error(r, old(self)@.current_dir),
            },
    {
        match parent_of_path(self.navigation_data.current_dir.as_str()) {
            Some(dir) => self.change_directory(dir, listing),
            None => Err(
                ClazyfilerError::navigation(
                    self.navigation_data.current_dir.as_str(),
                    "Already at root directory",
                ),
            ),
        }
    }

    /// Moves to `new_dir`, whose listing was read as `listing`: the whole
    /// listing is shown with the cursor on its first entry, the query and
    /// the scanned files are dropped. A failed read is handed back and
    /// leaves the state as it was.
    pub fn change_directory(
        &mut self,
        new_dir: String,
        listing: Result<Vec<FileEntry>, ClazyfilerError>,
    ) -> (r: Result<(), ClazyfilerError>)
        ensures
            match listing {
                Ok(files) => r is Ok && final(self)@ == old(self)@.arrived(new_dir@, files@)
                    && final(self)@.selected_index == 0 && final(self)@.files == files@
                    && final(self)@.query.len() == 0 && final(self).wf(),
                Err(e) => r == Err::<(), ClazyfilerError>(e) && *final(self) == *old(self),
            },
    {
        match listing {
            Ok(files) => {
                let _ = files.len();
                proof {
                    lemma_arrival_shows_listing(old(self)@, new_dir@, files@);
                }
                self.navigation_data.update(new_dir, files);
                self.search_input_view.clear_query();
                self.fuzzy_find_data.clear();
                self.file_list_view.selected_index = 0;
                self.shown = ListView::Explore;
                self.refresh_view();
                Ok(())
            },
            Err(e) => Err(e),
        }
    }

    /// Takes a new reading of the current directory and shows the Explore
    /// view of it. A failed read changes nothing.
    pub fn refresh_files(&mut self, listing: Result<Vec<FileEntry>, ClazyfilerError>)
        ensures
            match listing {
                Ok(files) => final(self)@ == old(self)@.relisted(files@) && final(self).wf(),
                Err(_) => *final(self) == *old(self),
            },
    {
        if let Ok(files) = listing {
            self.navigation_data.files = files;
            self.update_explore_view();
        }
    }

    pub fn move_selection_up(&mut self)
        ensures
            final(self)@ == (StateView {
                selected_index: moved_up(old(self)@.selected_index),
                ..old(self)@
            }),
            old(self).wf() ==> final(self).wf(),
    {
        self.file_list_view.move_selection_up();
    }

    pub fn move_selection_down(&mut self)
        ensures
            final(self)@ == (StateView {
                selected_index: moved_down(old(self)@.selected_index, old(self)@.files.len() as int),
                ..old(self)@
            }),
            old(self).wf() ==> final(self).wf(),
    {
        self.file_list_view.move_selection_down();
    }

    /// The file under the cursor.
    pub fn get_selected_file(&self) -> (r: Option<&FileEntry>)
        ensures
            match r {
                Some(file) => self@.selected_file() == Some(*file),
                None => self@.selected_file() is None,
            },
    {
        self.file_list_view.get_selected_file()
    }

    /// The shown file at `index`.
    pub fn get_filtered_file(&self, index: usize) -> (r: Option<&FileEntry>)
        ensures
            match r {
                Some(file) => index < self@.files.len() && *file == self@.files[index as int],
                None => index >= self@.files.len(),
            },
    {
        self.file_list_view.get_file(index)
    }

    pub fn filtered_files_len(&self) -> (r: usize)
        ensures
            r == self@.files.len(),
    {
        self.file_list_view.files_len()
    }

    pub fn selected_index(&self) -> (r: usize)
        ensures
            r == self@.selected_index,
    {
        self.file_list_view.selected_index
    }

    pub fn current_dir(&self) -> (r: &String)
        ensures
            *r == self.navigation_data.current_dir,
    {
        &self.navigation_data.current_dir
    }

    pub fn search_query(&self) -> (r: &str)
        ensures
            r@ == self@.query,
    {
        self.search_input_view.query.as_str()
    }

    /// Appends a character to the query; the file list follows.
    pub fn append_search_query(&mut self, c: char)
        ensures
            final(self)@ == old(self)@.with_query(old(self)@.query.push(c)),
            final(self).wf(),
    {
        self.search_input_view.append_to_query(c);
        self.refresh_view();
    }

    /// Removes the last character of the query; the file list follows.
    pub fn pop_search_query(&mut self)
        ensures
            final(self)@ == old(self)@.with_query(without_last_char(old(self)@.query)),
            final(self).wf(),
    {
        self.search_input_view.pop_from_query();
        self.refresh_view();
    }

    /// Empties the query; the file list follows.
    pub fn clear_search_query(&mut self)
        ensures
            final(self)@ == old(self)@.with_query(Seq::empty()),
            final(self).wf(),
    {
        self.search_input_view.clear_query();
        self.refresh_view();
    }

    /// Deletes the query back to its last space, or all of it when it holds
    /// none; the file list follows.
    pub fn delete_word_backward(&mut self)
        ensures
            final(self)@ == old(self)@.with_query(without_last_word(old(self)@.query)),
            final(self).wf(),
    {
        self.search_input_view.delete_word_backward();
        self.refresh_view();
    }

    /// Deletes the query to its end, which empties it; the file list
    /// follows.
    pub fn delete_to_end(&mut self)
        ensures
            final(self)@ == old(self)@.with_query(Seq::empty()),
            final(self).wf(),
    {
        self.search_input_view.delete_to_end();
        self.refresh_view();
    }

    /// The file that the editor is to open: the one under the cursor. The
    /// editor opens no directory, and nothing without a selection.
    pub fn open_selected_file_with_editor(&self) -> (r: Result<FileEntry, ClazyfilerError>)
        ensures
            match self@.selected_file() {
                Some(file) => if file.is_directory {
                    r matches Err(ClazyfilerError::Editor { command, message }) && command@
                        == "editor"@ && message@ == "Cannot open directory with editor"@
                } else {
                    r == Ok::<FileEntry, ClazyfilerError>(file)
                },
                None => r matches Err(ClazyfilerError::Editor { command, message }) && command@
                    == "selection"@ && message@ == "No file selected"@,
            },
    {
        match self.file_list_view.get_selected_file() {
            Some(file) => {
                if file.is_directory {
                    Err(ClazyfilerError::editor("editor", "Cannot open directory with editor"))
                } else {
                    Ok(file.clone())
                }
            },
            None => Err(ClazyfilerError::editor("selection", "No file selected")),
        }
    }

    /// Starts a fuzzy search over the files that a recursive scan of the
    /// current directory gave: the previous file set is replaced, the query
    /// starts empty, and the FuzzyFind view shows every scanned file in scan
    /// order. A failed scan is handed back and leaves the state as it was.
    pub fn start_fuzzy_find(&mut self, scan: Result<Vec<FileEntry>, ClazyfilerError>) -> (r: Result<
        (),
        ClazyfilerError,
    >)
        ensures
            match scan {
                Ok(found) => {
                    &&& r is Ok
                    &&& final(self)@ == old(self)@.scanned(found@)
                    &&& final(self)@.shown == ListView::FuzzyFind
                    &&& final(self)@.query.len() == 0
                    &&& final(self)@.files == found@
                    &&& final(self).wf()
                },
                Err(e) => r == Err::<(), ClazyfilerError>(e) && *final(self) == *old(self),
            },
    {
        match scan {
            Ok(files) => {
                let _ = files.len();
                proof {
                    lemma_pick_all(files@);
                }
                self.fuzzy_find_data.start_indexing();
                self.fuzzy_find_data.add_files(files);
                self.fuzzy_find_data.finish_indexing();
                assert(self.fuzzy_find_data.all_files@ =~= files@);
                self.search_input_view.clear_query();
                self.shown = ListView::FuzzyFind;
                self.refresh_view();
                Ok(())
            },
            Err(e) => Err(e),
        }
    }
}

} // verus!
