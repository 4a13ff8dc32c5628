//! The model of the browser: one state for all three modes, with the shown
//! files always those of the mode and the query.

use vstd::prelude::*;
use vstd::string::*;
use crate::cursor::{clamp, clamped, in_bounds, moved_down, moved_up, step_down, step_up};
use crate::errors::ClazyfilerError;
use crate::listing::{
    all_indices, copy_all, fuzzy_indices, fuzzy_positions, lemma_pick_all, pick, picked,
    search_indices, search_positions, Entry,
};
use crate::fuzzy::{fuzzy_score, saturated};
use crate::services::file_service::{parent_of, parent_of_path};
use crate::text::{
    decimal, decimal_string, delete_last_word, without_last_char, without_last_word,
};

verus! {

/// One file system object as a directory read or a recursive scan found it.
#[derive(Debug, PartialEq, Eq)]
pub struct FileEntry {
    pub name: String,
    pub path: String,
    pub is_directory: bool,
    /// Size in bytes, for regular files only.
    pub size: Option<u64>,
}

impl FileEntry {
    /// The entry for a file system object of this name and path. Only a
    /// regular file has a size; `len` is left out for everything else.
    pub fn new(name: String, path: String, is_directory: bool, is_file: bool, len: u64) -> (r: Self)
        ensures
            r.name == name,
            r.path == path,
            r.is_directory == is_directory,
            r.size == if is_file {
                Some(len)
            } else {
                None
            },
    {
        FileEntry {
            name,
            path,
            is_directory,
            size: if is_file {
                Some(len)
            } else {
                None
            },
        }
    }
}

impl Clone for FileEntry {
    fn clone(&self) -> (r: Self)
        ensures
            r == *self,
    {
        FileEntry {
            name: self.name.clone(),
            path: self.path.clone(),
            is_directory: self.is_directory,
            size: self.size,
        }
    }
}

impl Entry for FileEntry {
    open spec fn name_chars(&self) -> Seq<char> {
        self.name@
    }

    open spec fn path_chars(&self) -> Seq<char> {
        self.path@
    }

    fn entry_name(&self) -> (r: &str) {
        self.name.as_str()
    }

    fn entry_path(&self) -> (r: &str) {
        self.path.as_str()
    }

    fn duplicate(&self) -> (r: Self) {
        self.clone()
    }

    open spec fn is_dir_spec(&self) -> bool {
        self.is_directory
    }

    fn is_dir(&self) -> (r: bool) {
        self.is_directory
    }
}

/// The mode decides where the shown files come from and which keys edit the
/// query.
#[derive(Debug, Clone, Copy, PartialEq, Eq, Structural)]
pub enum AppMode {
    /// Browse the current directory.
    Explore,
    /// Narrow the current directory by a substring of the name.
    Search,
    /// Rank the files below the current directory against the query.
    FuzzyFind,
}

/// Where the shown files come from.
#[derive(Debug, Clone, Copy, PartialEq, Eq, Structural)]
pub enum FilesSource {
    CurrentDir,
    SearchResults,
    FuzzyResults,
}

/// The browser's state: the current directory and its listing, the query, the
/// shown files with the cursor, and the scanned file set of a fuzzy search.
#[derive(Debug)]
pub struct AppModel {
    pub current_dir: String,
    pub query_text: String,
    /// The files shown, filtered from `directory_files` or `all_files_cache`.
    pub files: Vec<FileEntry>,
    pub selected_index: usize,
    pub mode: AppMode,
    pub files_source: FilesSource,
    /// The listing of the current directory as it was last read.
    pub directory_files: Vec<FileEntry>,
    /// The files found by the last recursive scan.
    pub all_files_cache: Vec<FileEntry>,
    pub is_indexing: bool,
}

/// The state as the contracts speak of it.
pub ghost struct ModelView {
    pub current_dir: Seq<char>,
    pub query_text: Seq<char>,
    pub files: Seq<FileEntry>,
    pub selected_index: int,
    pub mode: AppMode,
    pub files_source: FilesSource,
    pub directory_files: Seq<FileEntry>,
    pub all_files_cache: Seq<FileEntry>,
    pub is_indexing: bool,
}

/// The files a mode shows for a query: in Explore and Search the entries of
/// the directory whose names contain the query, in listing order; in
/// FuzzyFind the scanned files ranked against the query.
pub open spec fn visible_files(
    mode: AppMode,
    directory: Seq<FileEntry>,
    cache: Seq<FileEntry>,
    query: Seq<char>,
) -> Seq<FileEntry> {
    match mode {
        AppMode::Explore => picked(directory, search_indices(directory, query)),
        AppMode::Search => picked(directory, search_indices(directory, query)),
        AppMode::FuzzyFind => picked(cache, fuzzy_indices(cache, query)),
    }
}

/// Title of the file list during a fuzzy search over `total` files.
pub open spec fn fuzzy_title(is_indexing: bool, total: nat) -> Seq<char> {
    if is_indexing {
        "\u{1f50d} Fuzzy Find - Indexing... ("@ + decimal(total) + " files)"@
    } else {
        "\u{1f50d} Fuzzy Find - "@ + decimal(total) + " total files"@
    }
}

/// Title of the file list.
pub open spec fn list_title_of(v: ModelView) -> Seq<char> {
    match v.mode {
        AppMode::Explore => if v.query_text.len() == 0 {
            "Files - "@ + v.current_dir
        } else {
            "Search - "@ + v.current_dir
        },
        AppMode::Search => "Search - "@ + v.current_dir,
        AppMode::FuzzyFind => fuzzy_title(v.is_indexing, v.all_files_cache.len()),
    }
}

/// Title of the preview of a file.
pub open spec fn detail_title(file: FileEntry) -> Seq<char> {
    if file.is_directory {
        "\u{1f4c1} "@ + file.name@
    } else {
        "\u{1f4c4} "@ + file.name@
    }
}

/// The title of the preview of a file: its name behind a sign for its kind.
pub fn preview_title(file: &FileEntry) -> (title: String)
    ensures
        title@ == detail_title(*file),
{
    let mut title = if file.is_directory {
        String::from_str("\u{1f4c1} ")
    } else {
        String::from_str("\u{1f4c4} ")
    };
    title.append(file.name.as_str());
    title
}

/// The source that a mode and a query stand for.
pub open spec fn source_of(mode: AppMode, query: Seq<char>) -> FilesSource {
    match mode {
        AppMode::Explore => if query.len() == 0 {
            FilesSource::CurrentDir
        } else {
            FilesSource::SearchResults
        },
        AppMode::Search => FilesSource::SearchResults,
        AppMode::FuzzyFind => FilesSource::FuzzyResults,
    }
}

impl ModelView {
    /// The shown files are those of the mode and the query, and the cursor
    /// points at one of them, or at zero when there is none.
    pub open spec fn wf(self) -> bool {
        &&& self.files == visible_files(
            self.mode,
            self.directory_files,
            self.all_files_cache,
            self.query_text,
        )
        &&& self.files_source == source_of(self.mode, self.query_text)
        &&& in_bounds(self.selected_index, self.files.len() as int)
    }

    /// The state with the shown files computed anew and the cursor clamped to
    /// them.
    pub open spec fn refreshed(self) -> ModelView {
        let files = visible_files(
            self.mode,
            self.directory_files,
            self.all_files_cache,
            self.query_text,
        );
        ModelView {
            files,
            files_source: source_of(self.mode, self.query_text),
            selected_index: clamped(self.selected_index, files.len() as int),
            ..self
        }
    }

    /// The state after the query was replaced.
    pub open spec fn with_query(self, query: Seq<char>) -> ModelView {
        ModelView { query_text: query, ..self }.refreshed()
    }

    /// The state after a switch to another mode, the query kept.
    pub open spec fn with_mode(self, mode: AppMode) -> ModelView {
        ModelView { mode, ..self }.refreshed()
    }

    /// The state on arrival in a directory with the given listing: Explore
    /// mode, empty query, the whole listing shown, the cursor on its first
    /// entry, no scanned files.
    pub open spec fn arrived(dir: Seq<char>, listing: Seq<FileEntry>) -> ModelView {
        ModelView {
            current_dir: dir,
            query_text: Seq::empty(),
            files: listing,
            selected_index: 0,
            mode: AppMode::Explore,
            files_source: FilesSource::CurrentDir,
            directory_files: listing,
            all_files_cache: Seq::empty(),
            is_indexing: false,
        }
    }

    /// The state after the current directory was read again.
    pub open spec fn relisted(self, listing: Seq<FileEntry>) -> ModelView {
        ModelView { directory_files: listing, ..self }.refreshed()
    }

    /// The state on entering Search mode: the query starts empty, so the
    /// whole directory is shown.
    pub open spec fn searching(self) -> ModelView {
        ModelView { mode: AppMode::Search, query_text: Seq::empty(), ..self }.refreshed()
    }

    /// The state on entering FuzzyFind mode after a recursive scan delivered
    /// `found`: the query starts empty, so every scanned file is shown, in
    /// scan order.
    pub open spec fn scanned(self, found: Seq<FileEntry>) -> ModelView {
        ModelView {
            mode: AppMode::FuzzyFind,
            query_text: Seq::empty(),
            all_files_cache: found,
            is_indexing: false,
            ..self
        }.refreshed()
    }

    /// The state after leaving Search or FuzzyFind for Explore with the query
    /// and the scanned files dropped.
    pub open spec fn back_to_explore(self) -> ModelView {
        ModelView {
            mode: AppMode::Explore,
            query_text: Seq::empty(),
            all_files_cache: Seq::empty(),
            is_indexing: false,
            ..self
        }.refreshed()
    }

    /// The entry under the cursor, if there is one.
    pub open spec fn selected_file(self) -> Option<FileEntry> {
        if 0 <= self.selected_index < self.files.len() {
            Some(self.files[self.selected_index])
        } else {
            None
        }
    }
}

impl View for AppModel {
    type V = ModelView;

    open spec fn view(&self) -> ModelView {
        ModelView {
            current_dir: self.current_dir@,
            query_text: self.query_text@,
            files: self.files@,
            selected_index: self.selected_index as int,
            mode: self.mode,
            files_source: self.files_source,
            directory_files: self.directory_files@,
            all_files_cache: self.all_files_cache@,
            is_indexing: self.is_indexing,
        }
    }
}

/// A state computed anew is well formed.
pub proof fn lemma_refreshed_wf(v: ModelView)
    ensures
        v.refreshed().wf(),
        v.refreshed().refreshed() == v.refreshed(),
{
}

/// Arriving in a directory shows its whole listing.
pub proof fn lemma_arrived_wf(dir: Seq<char>, listing: Seq<FileEntry>)
    requires
        listing.len() <= usize::MAX,
    ensures
        ModelView::arrived(dir, listing).wf(),
{
    assert(picked(listing, all_indices(listing.len() as int)) =~= listing);
}

impl AppModel {
    /// Well formed: see [`ModelView::wf`].
    pub open spec fn wf(&self) -> bool {
        self@.wf()
    }

    /// Starts in `current_dir` with the listing that was read of it.
    pub fn new(current_dir: String, listing: Result<Vec<FileEntry>, ClazyfilerError>) -> (r: Result<
        Self,
        ClazyfilerError,
    >)
        ensures
            match listing {
                Ok(files) => r matches Ok(model) && model@ == ModelView::arrived(
                    current_dir@,
                    files@,
                ) && model.wf(),
                Err(e) => r == Err::<Self, ClazyfilerError>(e),
            },
    {
        match listing {
            Ok(directory_files) => {
                let _ = directory_files.len();
                proof {
                    lemma_arrived_wf(current_dir@, directory_files@);
                }
                Ok(
                    AppModel {
                        current_dir,
                        query_text: String::new(),
                        files: copy_all(&directory_files),
                        selected_index: 0,
                        mode: AppMode::Explore,
                        files_source: FilesSource::CurrentDir,
                        directory_files,
                        all_files_cache: Vec::new(),
                        is_indexing: false,
                    },
                )
            },
            Err(e) => Err(e),
        }
    }

    /// The entry under the cursor.
    pub fn get_selected_file(&self) -> (r: Option<&FileEntry>)
        ensures
            match r {
                Some(file) => self@.selected_file() == Some(*file),
                None => self@.selected_file() is None,
            },
    {
        if self.selected_index < self.files.len() {
            Some(&self.files[self.selected_index])
        } else {
            None
        }
    }

    /// Computes the shown files anew for the current mode and query, and
    /// clamps the cursor to them. Whatever the state was, the cursor then
    /// points at a shown file, or at zero when none is shown, and has not
    /// moved towards the end.
    pub fn refresh_files_for_current_mode(&mut self)
        ensures
            final(self)@ == old(self)@.refreshed(),
            final(self).wf(),
            final(self).files@.len() > 0 ==> final(self).selected_index < final(self).files@.len(),
            final(self).files@.len() == 0 ==> final(self).selected_index == 0,
            final(self).selected_index <= old(self).selected_index,
            final(self).mode == old(self).mode,
            final(self).query_text@ == old(self).query_text@,
            final(self).directory_files@ == old(self).directory_files@,
            final(self).all_files_cache@ == old(self).all_files_cache@,
    {
        match self.mode {
            AppMode::Explore => {
                self.files = self.filter_files(&self.directory_files, self.query_text.as_str());
                self.files_source = if self.query_text.as_str().is_empty() {
                    FilesSource::CurrentDir
                } else {
                    FilesSource::SearchResults
                };
            },
            AppMode::Search => {
                self.files = self.filter_files(&self.directory_files, self.query_text.as_str());
                self.files_source = FilesSource::SearchResults;
            },
            AppMode::FuzzyFind => {
                self.files = self.fuzzy_filter_files(
                    &self.all_files_cache,
                    self.query_text.as_str(),
                );
                self.files_source = FilesSource::FuzzyResults;
            },
        }
        self.selected_index = clamp(self.selected_index, self.files.len());
    }

    /// The files whose names contain the query, compared without regard to
    /// case, in listing order; all of them for the empty query.
    pub fn filter_files(&self, files: &Vec<FileEntry>, query: &str) -> (r: Vec<FileEntry>)
        ensures
            r@ == picked(files@, search_indices(files@, query@)),
    {
        let shown = search_positions(files, query);
        pick(files, &shown)
    }

    /// The files that the query does not reject, best score first, equal
    /// scores in scan order; all of them for the empty query.
    pub fn fuzzy_filter_files(&self, files: &Vec<FileEntry>, query: &str) -> (r: Vec<FileEntry>)
        ensures
            r@ == picked(files@, fuzzy_indices(files@, query@)),
    {
        let shown = fuzzy_positions(files, query);
        pick(files, &shown)
    }

    /// Scores a path against a query; 0 rejects it.
    pub fn fuzzy_match(&self, text: &str, pattern: &str) -> (score: i32)
        ensures
            score == saturated(fuzzy_score(text@, pattern@)),
    {
        crate::fuzzy::fuzzy_match(text, pattern)
    }

    /// The title of the file list: the directory while browsing or
    /// searching, the number of scanned files during a fuzzy search.
    pub fn list_title(&self) -> (title: String)
        ensures
            title@ == list_title_of(self@),
    {
        match self.mode {
            AppMode::Explore => {
                let mut title = if self.query_text.as_str().is_empty() {
                    String::from_str("Files - ")
                } else {
                    String::from_str("Search - ")
                };
                title.append(self.current_dir.as_str());
                title
            },
            AppMode::Search => {
                let mut title = String::from_str("Search - ");
                title.append(self.current_dir.as_str());
                title
            },
            AppMode::FuzzyFind => {
                let count = decimal_string(self.all_files_cache.len() as u64);
                if self.is_indexing {
                    let mut title = String::from_str("\u{1f50d} Fuzzy Find - Indexing... (");
                    title.append(count.as_str());
                    title.append(" files)");
                    title
                } else {
                    let mut title = String::from_str("\u{1f50d} Fuzzy Find - ");
                    title.append(count.as_str());
                    title.append(" total files");
                    title
                }
            },
        }
    }

    /// The position to highlight in the file list: none while no file is
    /// shown.
    pub fn highlighted(&self) -> (r: Option<usize>)
        ensures
            r == if self@.files.len() > 0 {
                Some(self.selected_index)
            } else {
                None
            },
    {
        if self.files.len() > 0 {
            Some(self.selected_index)
        } else {
            None
        }
    }

    /// Replaces the query.
    pub fn update_query(&mut self, new_query: String)
        ensures
            final(self)@ == old(self)@.with_query(new_query@),
            final(self).wf(),
    {
        self.query_text = new_query;
        self.refresh_files_for_current_mode();
    }

    /// Appends a character to the query.
    pub fn append_to_query(&mut self, c: char)
        ensures
            final(self)@ == old(self)@.with_query(old(self)@.query_text.push(c)),
            final(self).wf(),
    {
        self.query_text.push(c);
        self.refresh_files_for_current_mode();
    }

    /// Removes the last character of the query, if it has one.
    pub fn pop_from_query(&mut self)
        ensures
            final(self)@ == old(self)@.with_query(without_last_char(old(self)@.query_text)),
            final(self).wf(),
    {
        let _ = self.query_text.pop();
        self.refresh_files_for_current_mode();
    }

    /// Empties the query.
    pub fn clear_query(&mut self)
        ensures
            final(self)@ == old(self)@.with_query(Seq::empty()),
            final(self).wf(),
    {
        self.query_text = String::new();
        self.refresh_files_for_current_mode();
    }

    /// Deletes the query back to its last space, or all of it when it holds
    /// none.
    pub fn delete_word_backward(&mut self)
        ensures
            final(self)@ == old(self)@.with_query(without_last_word(old(self)@.query_text)),
            final(self).wf(),
    {
        delete_last_word(&mut self.query_text);
        self.refresh_files_for_current_mode();
    }

    /// Deletes the query from the cursor to its end; the cursor of the query
    /// always stands at its start, so this empties it.
    pub fn delete_to_end(&mut self)
        ensures
            final(self)@ == old(self)@.with_query(Seq::empty()),
            final(self).wf(),
    {
        self.query_text = String::new();
        self.refresh_files_for_current_mode();
    }

    /// Moves the cursor one entry up.
    pub fn move_selection_up(&mut self)
        ensures
            final(self)@ == (ModelView {
                selected_index: moved_up(old(self)@.selected_index),
                ..old(self)@
            }),
            old(self).wf() ==> final(self).wf(),
    {
        self.selected_index = step_up(self.selected_index);
    }

    /// Moves the cursor one entry down.
    pub fn move_selection_down(&mut self)
        ensures
            final(self)@ == (ModelView {
                selected_index: moved_down(
                    old(self)@.selected_index,
                    old(self)@.files.len() as int,
                ),
                ..old(self)@
            }),
            old(self).wf() ==> final(self).wf(),
    {
        self.selected_index = step_down(self.selected_index, self.files.len());
    }

    /// Moves to `new_dir`, whose listing was read as `listing`. A failed read
    /// is handed back and leaves the state as it was.
    pub fn change_directory(
        &mut self,
        new_dir: String,
        listing: Result<Vec<FileEntry>, ClazyfilerError>,
    ) -> (r: Result<(), ClazyfilerError>)
        ensures
            match listing {
                Ok(files) => r is Ok && final(self)@ == ModelView::arrived(new_dir@, files@)
                    && final(self).wf(),
                Err(e) => r == Err::<(), ClazyfilerError>(e) && *final(self) == *old(self),
            },
    {
        match listing {
            Ok(directory_files) => {
                let _ = directory_files.len();
                proof {
                    lemma_arrived_wf(new_dir@, directory_files@);
                }
                self.current_dir = new_dir;
                self.files = copy_all(&directory_files);
                self.directory_files = directory_files;
                self.selected_index = 0;
                self.query_text = String::new();
                self.mode = AppMode::Explore;
                self.files_source = FilesSource::CurrentDir;
                self.all_files_cache = Vec::new();
                self.is_indexing = false;
                Ok(())
            },
            Err(e) => Err(e),
        }
    }

    /// Moves to the parent of the current directory; `listing` is what
    /// reading the parent gave. At the root, where there is no parent,
    /// nothing changes and the refusal is reported.
    pub fn go_to_parent(&mut self, listing: Result<Vec<FileEntry>, ClazyfilerError>) -> (r: Result<
        (),
        ClazyfilerError,
    >)
        ensures
            match (parent_of(old(self)@.current_dir), listing) {
                (Some(dir), Ok(files)) => r is Ok && final(self)@ == ModelView::arrived(dir, files@)
                    && final(self).wf(),
                (Some(_), Err(e)) => r == Err::<(), ClazyfilerError>(e) && *final(self) == *old(self),
                (None, _) => *final(self) == *old(self) && at_root_error(r, old(self)@.current_dir),
            },
    {
        match parent_of_path(self.current_dir.as_str()) {
            Some(dir) => self.change_directory(dir, listing),
            None => Err(
                ClazyfilerError::navigation(self.current_dir.as_str(), "Already at root directory"),
            ),
        }
    }

    /// Enters the directory under the cursor, whose listing was read as
    /// `listing`. Without a selection, or with a file selected, nothing
    /// changes and the refusal is reported.
    pub fn enter_selected_directory(&mut self, listing: Result<Vec<FileEntry>, ClazyfilerError>) -> (r:
        Result<(), ClazyfilerError>)
        ensures
            match old(self)@.selected_file() {
                None => *final(self) == *old(self) && no_selection_error(
                    r,
                    old(self)@.current_dir,
                ),
                Some(file) => if file.is_directory {
                    match listing {
                        Ok(files) => r is Ok && final(self)@ == ModelView::arrived(
                            file.path@,
                            files@,
                        ) && final(self).wf(),
                        Err(e) => r == Err::<(), ClazyfilerError>(e) && *final(self) == *old(self),
                    }
                } else {
                    *final(self) == *old(self) && not_a_directory_error(r, file.path@)
                },
            },
    {
        if self.selected_index < self.files.len() {
            if self.files[self.selected_index].is_directory {
                let path = self.files[self.selected_index].path.clone();
                self.change_directory(path, listing)
            } else {
                Err(
                    ClazyfilerError::navigation(
                        self.files[self.selected_index].path.as_str(),
                        "Selected item is not a directory",
                    ),
                )
            }
        } else {
            Err(ClazyfilerError::navigation(self.current_dir.as_str(), "No file selected"))
        }
    }

    /// Returns to Explore mode with an empty query and without the scanned
    /// files.
    pub fn switch_to_explore_mode(&mut self)
        ensures
            final(self)@ == old(self)@.back_to_explore(),
            final(self)@.mode == AppMode::Explore,
            final(self)@.query_text.len() == 0,
            final(self)@.files == old(self)@.directory_files,
            final(self).wf(),
    {
        let _ = self.directory_files.len();
        proof {
            lemma_pick_all(self.directory_files@);
        }
        self.mode = AppMode::Explore;
        self.query_text = String::new();
        self.all_files_cache = Vec::new();
        self.is_indexing = false;
        self.refresh_files_for_current_mode();
    }

    /// Returns to Explore mode and keeps the query, so that the search
    /// results stay on screen.
    pub fn switch_to_explore_mode_keep_query(&mut self)
        ensures
            final(self)@ == old(self)@.with_mode(AppMode::Explore),
            final(self).wf(),
    {
        self.mode = AppMode::Explore;
        self.refresh_files_for_current_mode();
    }

    /// Enters Search mode with an empty query, which shows the whole
    /// directory.
    pub fn switch_to_search_mode(&mut self)
        ensures
            final(self)@ == old(self)@.searching(),
            final(self)@.mode == AppMode::Search,
            final(self)@.query_text.len() == 0,
            final(self)@.files == old(self)@.directory_files,
            final(self).wf(),
    {
        let _ = self.directory_files.len();
        proof {
            lemma_pick_all(self.directory_files@);
        }
        self.mode = AppMode::Search;
        self.query_text = String::new();
        self.refresh_files_for_current_mode();
    }

    /// Enters FuzzyFind mode over the files that a recursive scan of the
    /// current directory gave as `scan`. The query starts empty, so every
    /// scanned file is shown, in scan order. A failed scan is handed back
    /// and leaves the state as it was.
    pub fn switch_to_fuzzy_find_mode(&mut self, scan: Result<Vec<FileEntry>, ClazyfilerError>) -> (r:
        Result<(), ClazyfilerError>)
        ensures
            match scan {
                Ok(found) => {
                    &&& r is Ok
                    &&& final(self)@ == old(self)@.scanned(found@)
                    &&& final(self)@.mode == AppMode::FuzzyFind
                    &&& final(self)@.query_text.len() == 0
                    &&& final(self)@.files == found@
                    &&& final(self)@.all_files_cache == found@
                    &&& final(self).wf()
                },
                Err(e) => r == Err::<(), ClazyfilerError>(e) && *final(self) == *old(self),
            },
    {
        match scan {
            Ok(found) => {
                let _ = found.len();
                proof {
                    lemma_pick_all(found@);
                }
                self.mode = AppMode::FuzzyFind;
                self.query_text = String::new();
                self.start_fuzzy_indexing(found);
                Ok(())
            },
            Err(e) => Err(e),
        }
    }

    /// Takes the scanned files and ranks them against the query.
    fn start_fuzzy_indexing(&mut self, found: Vec<FileEntry>)
        ensures
            final(self)@ == (ModelView {
                all_files_cache: found@,
                is_indexing: false,
                ..old(self)@
            }).refreshed(),
            final(self).wf(),
    {
        self.all_files_cache = found;
        self.is_indexing = false;
        self.refresh_files_for_current_mode();
    }

    /// The file that the editor is to open: the one under the cursor. The
    /// editor opens no directory, and nothing without a selection.
    pub fn open_selected_file_with_editor(&self) -> (r: Result<FileEntry, ClazyfilerError>)
        ensures
            match self@.selected_file() {
                None => r matches Err(ClazyfilerError::Editor { command, message }) && command@
                    == "selection"@ && message@ == "No file selected"@,
                Some(file) => if file.is_directory {
                    r matches Err(ClazyfilerError::Editor { command, message }) && command@
                        == "editor"@ && message@ == "Cannot open directory with editor"@
                } else {
                    r == Ok::<FileEntry, ClazyfilerError>(file)
                },
            },
    {
        if self.selected_index < self.files.len() {
            if self.files[self.selected_index].is_directory {
                Err(ClazyfilerError::editor("editor", "Cannot open directory with editor"))
            } else {
                Ok(self.files[self.selected_index].clone())
            }
        } else {
            Err(ClazyfilerError::editor("selection", "No file selected"))
        }
    }

    /// Takes a new reading of the current directory. A failed read keeps the
    /// old listing; the shown files are computed anew either way.
    pub fn refresh_current_directory(&mut self, listing: Result<Vec<FileEntry>, ClazyfilerError>)
        ensures
            match listing {
                Ok(files) => final(self)@ == old(self)@.relisted(files@),
                Err(_) => final(self)@ == old(self)@.refreshed(),
            },
            final(self).wf(),
    {
        if let Ok(directory_files) = listing {
            self.directory_files = directory_files;
        }
        self.refresh_files_for_current_mode();
    }

    /// The text shown for a file whose content was read as `content`.
    pub fn get_file_content(&self, content: Result<String, ClazyfilerError>) -> (text: String)
        ensures
            match content {
                Ok(read) => text@ == read@,
                Err(e) => text@ == "\u{274c} Error reading file: "@ + e.message_chars(),
            },
    {
        match content {
            Ok(read) => read,
            Err(e) => {
                let mut text = String::from_str("\u{274c} Error reading file: ");
                let reason = e.message();
                text.append(reason.as_str());
                text
            },
        }
    }
}

/// `r` is the refusal to go above the root, reported for `dir`.
pub open spec fn at_root_error(r: Result<(), ClazyfilerError>, dir: Seq<char>) -> bool {
    r matches Err(ClazyfilerError::Navigation { path, message }) && path@ == dir && message@
        == "Already at root directory"@
}

/// `r` is the refusal to enter anything while nothing is selected, reported
/// for `dir`.
pub open spec fn no_selection_error(r: Result<(), ClazyfilerError>, dir: Seq<char>) -> bool {
    r matches Err(ClazyfilerError::Navigation { path, message }) && path@ == dir && message@
        == "No file selected"@
}

/// `r` is the refusal to enter the file at `file_path`.
pub open spec fn not_a_directory_error(r: Result<(), ClazyfilerError>, file_path: Seq<char>) -> bool {
    r matches Err(ClazyfilerError::Navigation { path, message }) && path@ == file_path && message@
        == "Selected item is not a directory"@
}

} // verus!
