//! The state of a fuzzy search.

use vstd::prelude::*;
use vstd::string::*;
use crate::cursor::{clamp, clamped, in_bounds, moved_down, moved_up, step_down, step_up};
use crate::fuzzy::{fuzzy_score, saturated};
use crate::listing::{each_once, fuzzy_indices, fuzzy_positions, indices_below};
use crate::model::FileEntry;
use crate::text::{delete_last_word, without_last_char, without_last_word};

verus! {

/// A fuzzy search: the scanned files, the query, the positions of the files
/// that the query lets through in ranked order, and the cursor into them.
#[derive(Debug)]
pub struct FuzzyFindState {
    pub query: String,
    /// The files found by the recursive scan.
    pub all_files: Vec<FileEntry>,
    /// Positions in `all_files`, best match first.
    pub filtered_indices: Vec<usize>,
    /// Position in `filtered_indices`.
    pub selected_index: usize,
    pub is_indexing: bool,
}

impl FuzzyFindState {
    /// The filtered positions are the visible set of the query over the
    /// scanned files, and the cursor points into them.
    pub open spec fn wf(&self) -> bool {
        &&& self.filtered_indices@ == fuzzy_indices(self.all_files@, self.query@)
        &&& indices_below(self.filtered_indices@, self.all_files@.len() as int)
        &&& each_once(self.filtered_indices@)
        &&& in_bounds(self.selected_index as int, self.filtered_indices@.len() as int)
    }

    /// `self` is `before` with the given query, the visible set computed anew
    /// and the cursor clamped to it.
    pub open spec fn is_update_of(&self, before: &FuzzyFindState, query: Seq<char>) -> bool {
        &&& self.query@ == query
        &&& self.all_files == before.all_files
        &&& self.is_indexing == before.is_indexing
        &&& self.selected_index == clamped(
            before.selected_index as int,
            self.filtered_indices@.len() as int,
        )
        &&& self.wf()
    }

    pub fn new() -> (r: Self)
        ensures
            r.query@.len() == 0,
            r.all_files@.len() == 0,
            r.filtered_indices@.len() == 0,
            r.selected_index == 0,
            !r.is_indexing,
            r.wf(),
    {
        let r = FuzzyFindState {
            query: String::new(),
            all_files: Vec::new(),
            filtered_indices: Vec::new(),
            selected_index: 0,
            is_indexing: false,
        };
        assert(r.filtered_indices@ =~= fuzzy_indices(r.all_files@, r.query@));
        r
    }

    /// Starts a fuzzy search ahead of a scan of `_root_dir`: the previous
    /// file set is discarded and the query starts empty. The flag marks that
    /// the file set is not complete yet.
    pub fn start_indexing(&mut self, _root_dir: &str)
        ensures
            final(self).is_indexing,
            final(self).all_files@.len() == 0,
            final(self).filtered_indices@.len() == 0,
            final(self).selected_index == 0,
            final(self).query@.len() == 0,
            final(self).wf(),
    {
        self.is_indexing = true;
        self.query = String::new();
        self.all_files = Vec::new();
        self.filtered_indices = Vec::new();
        self.selected_index = 0;
        assert(self.filtered_indices@ =~= fuzzy_indices(self.all_files@, self.query@));
    }

    /// Adds scanned files and ranks the whole file set anew.
    pub fn add_files(&mut self, files: Vec<FileEntry>)
        ensures
            final(self).all_files@ == old(self).all_files@ + files@,
            final(self).query@ == old(self).query@,
            final(self).is_indexing == old(self).is_indexing,
            final(self).selected_index == clamped(
                old(self).selected_index as int,
                final(self).filtered_indices@.len() as int,
            ),
            final(self).wf(),
    {
        let mut files = files;
        self.all_files.append(&mut files);
        self.update_filtered_results();
    }

    pub fn finish_indexing(&mut self)
        ensures
            !final(self).is_indexing,
            final(self).all_files == old(self).all_files,
            final(self).query@ == old(self).query@,
            final(self).selected_index == clamped(
                old(self).selected_index as int,
                final(self).filtered_indices@.len() as int,
            ),
            final(self).wf(),
    {
        self.is_indexing = false;
        self.update_filtered_results();
    }

    pub fn set_query(&mut self, query: String)
        ensures
            final(self).is_update_of(old(self), query@),
    {
        self.query = query;
        self.update_filtered_results();
    }

    pub fn append_to_query(&mut self, c: char)
        ensures
            final(self).is_update_of(old(self), old(self).query@.push(c)),
    {
        self.query.push(c);
        self.update_filtered_results();
    }

    pub fn pop_from_query(&mut self)
        ensures
            final(self).is_update_of(old(self), without_last_char(old(self).query@)),
    {
        let _ = self.query.pop();
        self.update_filtered_results();
    }

    pub fn clear_query(&mut self)
        ensures
            final(self).is_update_of(old(self), Seq::empty()),
    {
        self.query = String::new();
        self.update_filtered_results();
    }

    /// Deletes the query back to its last space, or all of it when it holds
    /// none.
    pub fn delete_word_backward(&mut self)
        ensures
            final(self).is_update_of(old(self), without_last_word(old(self).query@)),
    {
        delete_last_word(&mut self.query);
        self.update_filtered_results();
    }

    pub fn delete_to_end(&mut self)
        ensures
            final(self).is_update_of(old(self), Seq::empty()),
    {
        self.query = String::new();
        self.update_filtered_results();
    }

    /// Computes the visible set anew and clamps the cursor to it. Whatever
    /// the state was, every shown position then names a scanned file, none
    /// occurs twice, and the cursor points at a shown position, or at zero
    /// when none is shown.
    pub fn update_filtered_results(&mut self)
        ensures
            final(self).is_update_of(old(self), old(self).query@),
            forall|k: int|
                0 <= k < final(self).filtered_indices@.len() ==> (
                #[trigger] final(self).filtered_indices@[k]) < final(self).all_files@.len(),
            each_once(final(self).filtered_indices@),
            final(self).filtered_indices@.len() > 0 ==> final(self).selected_index < final(self).filtered_indices@.len(),
            final(self).filtered_indices@.len() == 0 ==> final(self).selected_index == 0,
    {
        self.filtered_indices = fuzzy_positions(&self.all_files, self.query.as_str());
        self.selected_index = clamp(self.selected_index, self.filtered_indices.len());
    }

    /// Scores a path against a query; 0 rejects it.
    pub fn fuzzy_match(&self, text: &str, pattern: &str) -> (score: i32)
        ensures
            score == saturated(fuzzy_score(text@, pattern@)),
    {
        crate::fuzzy::fuzzy_match(text, pattern)
    }

    pub fn move_selection_up(&mut self)
        ensures
            final(self).selected_index == moved_up(old(self).selected_index as int),
            final(self).query == old(self).query,
            final(self).all_files == old(self).all_files,
            final(self).filtered_indices == old(self).filtered_indices,
            final(self).is_indexing == old(self).is_indexing,
            old(self).wf() ==> final(self).wf(),
    {
        self.selected_index = step_up(self.selected_index);
    }

    pub fn move_selection_down(&mut self)
        ensures
            final(self).selected_index == moved_down(
                old(self).selected_index as int,
                old(self).filtered_indices@.len() as int,
            ),
            final(self).query == old(self).query,
            final(self).all_files == old(self).all_files,
            final(self).filtered_indices == old(self).filtered_indices,
            final(self).is_indexing == old(self).is_indexing,
            old(self).wf() ==> final(self).wf(),
    {
        self.selected_index = step_down(self.selected_index, self.filtered_indices.len());
    }

    /// The file under the cursor.
    pub fn get_selected_file(&self) -> (r: Option<&FileEntry>)
        ensures
            r == self.file_at(self.selected_index as int),
    {
        self.get_filtered_file(self.selected_index)
    }

    /// The file at a position of the visible set, if the position exists and
    /// names a scanned file.
    pub open spec fn file_at(&self, filtered_index: int) -> Option<&FileEntry> {
        if 0 <= filtered_index < self.filtered_indices@.len()
            && self.filtered_indices@[filtered_index] < self.all_files@.len() {
            Some(&self.all_files@[self.filtered_indices@[filtered_index] as int])
        } else {
            None
        }
    }

    /// The file at a position of the visible set.
    pub fn get_filtered_file(&self, filtered_index: usize) -> (r: Option<&FileEntry>)
        ensures
            r == self.file_at(filtered_index as int),
    {
        if filtered_index < self.filtered_indices.len() {
            let file_index = self.filtered_indices[filtered_index];
            if file_index < self.all_files.len() {
                Some(&self.all_files[file_index])
            } else {
                None
            }
        } else {
            None
        }
    }

    pub fn filtered_count(&self) -> (r: usize)
        ensures
            r == self.filtered_indices@.len(),
    {
        self.filtered_indices.len()
    }

    pub fn total_count(&self) -> (r: usize)
        ensures
            r == self.all_files@.len(),
    {
        self.all_files.len()
    }

    /// A fuzzy search is active while it has a query or scanned files.
    pub fn is_active(&self) -> (r: bool)
        ensures
            r == (self.query@.len() > 0 || self.all_files@.len() > 0),
    {
        !self.query.as_str().is_empty() || self.all_files.len() > 0
    }

    /// Forgets the query and the scanned files.
    pub fn clear(&mut self)
        ensures
            final(self).query@.len() == 0,
            final(self).all_files@.len() == 0,
            final(self).filtered_indices@.len() == 0,
            final(self).selected_index == 0,
            !final(self).is_indexing,
            final(self).wf(),
    {
        self.query = String::new();
        self.all_files = Vec::new();
        self.filtered_indices = Vec::new();
        self.selected_index = 0;
        self.is_indexing = false;
        assert(self.filtered_indices@ =~= fuzzy_indices(self.all_files@, self.query@));
    }
}

} // verus!
