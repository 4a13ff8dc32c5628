//! The state of a substring search over a listing kept elsewhere, which
//! hands the names of its files in where the visible set is computed.

use vstd::prelude::*;
use crate::cursor::{clamp, clamped, in_bounds, moved_down, moved_up, step_down, step_up};
use crate::fuzzy::contains_chars;
use crate::listing::{all_indices, index_range, name_matches};
use crate::text::{chars_of, delete_last_word, lowercase, to_lowercase, without_last_char, without_last_word};

verus! {

/// A substring search over a listing that is kept elsewhere: the query, the
/// positions of the listed files that are shown, and the cursor into them.
#[derive(Debug)]
pub struct SearchState {
    pub query: String,
    /// Positions in the listing.
    pub filtered_indices: Vec<usize>,
    /// Position in `filtered_indices`.
    pub selected_index: usize,
}

/// A name was given and matches the query.
pub open spec fn answer_matches(answer: Option<String>, query: Seq<char>) -> bool {
    answer matches Some(name) && name_matches(name@, query)
}

/// The positions below `n` whose answers match the query, in ascending order.
pub open spec fn matching_answers(answers: Seq<Option<String>>, query: Seq<char>, n: int) -> Seq<
    usize,
>
    decreases n,
{
    if n <= 0 {
        Seq::empty()
    } else {
        let before = matching_answers(answers, query, n - 1);
        if answer_matches(answers[n - 1], query) {
            before.push((n - 1) as usize)
        } else {
            before
        }
    }
}

/// `indices` is the visible set of `query` over a listing of `total_files`
/// files whose names `get_file_name` gives: every position for the empty
/// query, else the positions for which a name was given that contains the
/// query, compared without regard to case.
pub open spec fn is_filter_of<F: Fn(usize) -> Option<String>>(
    indices: Seq<usize>,
    query: Seq<char>,
    total_files: usize,
    get_file_name: F,
) -> bool {
    if query.len() == 0 {
        indices == all_indices(total_files as int)
    } else {
        exists|answers: Seq<Option<String>>|
            {
                &&& answers.len() == total_files
                &&& forall|i: int|
                    0 <= i < total_files ==> call_ensures(
                        get_file_name,
                        (i as usize,),
                        #[trigger] answers[i],
                    )
                &&& indices == matching_answers(answers, query, total_files as int)
            }
    }
}

impl SearchState {
    /// The cursor points at a shown position, or at zero when none is shown.
    pub open spec fn wf(&self) -> bool {
        in_bounds(self.selected_index as int, self.filtered_indices@.len() as int)
    }

    /// `self` is `before` with the given query, the visible set of that query
    /// over the names that `get_file_name` gives, and the cursor clamped to
    /// it.
    pub open spec fn is_update_of<F: Fn(usize) -> Option<String>>(
        &self,
        before: &SearchState,
        query: Seq<char>,
        total_files: usize,
        get_file_name: F,
    ) -> bool {
        &&& self.query@ == query
        &&& is_filter_of(self.filtered_indices@, query, total_files, get_file_name)
        &&& self.selected_index == clamped(
            before.selected_index as int,
            self.filtered_indices@.len() as int,
        )
        &&& self.wf()
    }

    pub fn new() -> (r: Self)
        ensures
            r.query@.len() == 0,
            r.filtered_indices@.len() == 0,
            r.selected_index == 0,
            r.wf(),
    {
        SearchState { query: String::new(), filtered_indices: Vec::new(), selected_index: 0 }
    }

    /// Appends a character to the query and filters the listing of
    /// `total_files` files, whose names `get_file_name` gives, by the new
    /// query.
    pub fn append_to_query<F: Fn(usize) -> Option<String>>(
        &mut self,
        c: char,
        total_files: usize,
        get_file_name: F,
    )
        requires
            forall|i: usize| i < total_files ==> call_requires(get_file_name, (i,)),
        ensures
            final(self).is_update_of(
                old(self),
                old(self).query@.push(c),
                total_files,
                get_file_name,
            ),
    {
        self.query.push(c);
        self.update_filtered_indices(total_files, get_file_name);
    }

    /// Removes the last character of the query and filters the listing by
    /// the new query.
    pub fn pop_from_query<F: Fn(usize) -> Option<String>>(
        &mut self,
        total_files: usize,
        get_file_name: F,
    )
        requires
            forall|i: usize| i < total_files ==> call_requires(get_file_name, (i,)),
        ensures
            final(self).is_update_of(
                old(self),
                without_last_char(old(self).query@),
                total_files,
                get_file_name,
            ),
    {
        let _ = self.query.pop();
        self.update_filtered_indices(total_files, get_file_name);
    }

    /// Empties the query, which shows every position of the listing.
    pub fn clear_query<F: Fn(usize) -> Option<String>>(
        &mut self,
        total_files: usize,
        get_file_name: F,
    )
        requires
            forall|i: usize| i < total_files ==> call_requires(get_file_name, (i,)),
        ensures
            final(self).is_update_of(old(self), Seq::empty(), total_files, get_file_name),
            final(self).filtered_indices@ == all_indices(total_files as int),
    {
        self.query = String::new();
        self.update_filtered_indices(total_files, get_file_name);
    }

    /// Deletes the query back to its last space, or all of it when it holds
    /// none, and filters the listing by the new query.
    pub fn delete_word_backward<F: Fn(usize) -> Option<String>>(
        &mut self,
        total_files: usize,
        get_file_name: F,
    )
        requires
            forall|i: usize| i < total_files ==> call_requires(get_file_name, (i,)),
        ensures
            final(self).is_update_of(
                old(self),
                without_last_word(old(self).query@),
                total_files,
                get_file_name,
            ),
    {
        delete_last_word(&mut self.query);
        self.update_filtered_indices(total_files, get_file_name);
    }

    /// Deletes the query to its end, which empties it and shows every
    /// position of the listing.
    pub fn delete_to_end<F: Fn(usize) -> Option<String>>(
        &mut self,
        total_files: usize,
        get_file_name: F,
    )
        requires
            forall|i: usize| i < total_files ==> call_requires(get_file_name, (i,)),
        ensures
            final(self).is_update_of(old(self), Seq::empty(), total_files, get_file_name),
            final(self).filtered_indices@ == all_indices(total_files as int),
    {
        self.query = String::new();
        self.update_filtered_indices(total_files, get_file_name);
    }

    /// Computes the visible set anew and clamps the cursor to it.
    fn update_filtered_indices<F: Fn(usize) -> Option<String>>(
        &mut self,
        total_files: usize,
        get_file_name: F,
    )
        requires
            forall|i: usize| i < total_files ==> call_requires(get_file_name, (i,)),
        ensures
            final(self).is_update_of(old(self), old(self).query@, total_files, get_file_name),
    {
        self.update_with_file_names(total_files, get_file_name);
    }

    /// Filters the positions of a listing of `total_files` files by the
    /// names that `get_file_name` gives for them: with a query, a position is
    /// shown when a name was given for it and contains the query, compared
    /// without regard to case. `get_file_name` is asked once for each
    /// position, in ascending order, and only when there is a query.
    pub fn update_with_file_names<F: Fn(usize) -> Option<String>>(
        &mut self,
        total_files: usize,
        get_file_name: F,
    )
        requires
            forall|i: usize| i < total_files ==> call_requires(get_file_name, (i,)),
        ensures
            final(self).is_update_of(old(self), old(self).query@, total_files, get_file_name),
    {
        if self.query.as_str().is_empty() {
            self.filtered_indices = index_range(total_files);
        } else {
            let query_lower = to_lowercase(self.query.as_str());
            let needle = chars_of(query_lower.as_str());
            let mut shown: Vec<usize> = Vec::new();
            let ghost mut answers: Seq<Option<String>> = Seq::empty();
            let mut i: usize = 0;
            while i < total_files
                invariant
                    i <= total_files,
                    needle@ == lowercase(self.query@),
                    forall|j: usize| j < total_files ==> call_requires(get_file_name, (j,)),
                    answers.len() == i,
                    forall|j: int|
                        0 <= j < i ==> call_ensures(
                            get_file_name,
                            (j as usize,),
                            #[trigger] answers[j],
                        ),
                    shown@ == matching_answers(answers, self.query@, i as int),
                decreases total_files - i,
            {
                let answer = get_file_name(i);
                let ghost before = answers;
                proof {
                    answers = answers.push(answer);
                    lemma_matching_answers_prefix(before, answers, self.query@, i as int);
                }
                match answer {
                    Some(name) => {
                        let name_lower = to_lowercase(name.as_str());
                        let hay = chars_of(name_lower.as_str());
                        if contains_chars(&hay, &needle) {
                            shown.push(i);
                        }
                    },
                    None => {},
                }
                i += 1;
            }
            self.filtered_indices = shown;
        }
        self.selected_index = clamp(self.selected_index, self.filtered_indices.len());
    }

    pub fn move_selection_up(&mut self)
        ensures
            final(self).selected_index == moved_up(old(self).selected_index as int),
            final(self).query == old(self).query,
            final(self).filtered_indices == old(self).filtered_indices,
            old(self).wf() ==> final(self).wf(),
    {
        self.selected_index = step_up(self.selected_index);
    }

    pub fn move_selection_down(&mut self)
        ensures
            final(self).selected_index == moved_down(
                old(self).selected_index as int,
                old(self).filtered_indices@.len() as int,
            ),
            final(self).query == old(self).query,
            final(self).filtered_indices == old(self).filtered_indices,
            old(self).wf() ==> final(self).wf(),
    {
        self.selected_index = step_down(self.selected_index, self.filtered_indices.len());
    }

    /// The position in the listing of the file under the cursor.
    pub fn get_selected_file_index(&self) -> (r: Option<usize>)
        ensures
            match r {
                Some(index) => self.selected_index < self.filtered_indices@.len() && index
                    == self.filtered_indices@[self.selected_index as int],
                None => self.selected_index >= self.filtered_indices@.len(),
            },
    {
        self.get_file_index(self.selected_index)
    }

    /// The position in the listing of the shown file at `filtered_index`.
    pub fn get_file_index(&self, filtered_index: usize) -> (r: Option<usize>)
        ensures
            match r {
                Some(index) => filtered_index < self.filtered_indices@.len() && index
                    == self.filtered_indices@[filtered_index as int],
                None => filtered_index >= self.filtered_indices@.len(),
            },
    {
        if filtered_index < self.filtered_indices.len() {
            Some(self.filtered_indices[filtered_index])
        } else {
            None
        }
    }

    pub fn filtered_count(&self) -> (r: usize)
        ensures
            r == self.filtered_indices@.len(),
    {
        self.filtered_indices.len()
    }

    /// A search is active while the query holds a character.
    pub fn is_active(&self) -> (r: bool)
        ensures
            r == (self.query@.len() > 0),
    {
        !self.query.as_str().is_empty()
    }
}

/// The matching positions below `n` depend on the first `n` answers only.
proof fn lemma_matching_answers_prefix(
    a: Seq<Option<String>>,
    b: Seq<Option<String>>,
    query: Seq<char>,
    n: int,
)
    requires
        n <= a.len() <= b.len(),
        forall|j: int| 0 <= j < n ==> a[j] == b[j],
    ensures
        matching_answers(a, query, n) == matching_answers(b, query, n),
    decreases n,
{
    if n > 0 {
        lemma_matching_answers_prefix(a, b, query, n - 1);
    }
}

} // verus!
