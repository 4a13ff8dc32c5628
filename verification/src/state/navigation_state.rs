//! The state of the navigation: a directory, its listing, a cursor.

use vstd::prelude::*;
use crate::cursor::{clamp, clamped, in_bounds, moved_down, moved_up, step_down, step_up};
use crate::errors::ClazyfilerError;
use crate::model::{at_root_error, no_selection_error, not_a_directory_error, FileEntry};
use crate::services::file_service::{parent_of, parent_of_path};

verus! {

/// The current directory, the listing that was last read of it, and the
/// cursor into that listing.
#[derive(Debug)]
pub struct NavigationState {
    pub current_dir: String,
    pub files: Vec<FileEntry>,
    pub selected_index: usize,
}

impl NavigationState {
    /// The cursor points at a listed file, or at zero when none is listed.
    pub open spec fn wf(&self) -> bool {
        in_bounds(self.selected_index as int, self.files@.len() as int)
    }

    /// The state after arriving in `dir` with the given listing.
    pub open spec fn is_arrival(&self, dir: Seq<char>, listing: Seq<FileEntry>) -> bool {
        &&& self.current_dir@ == dir
        &&& self.files@ == listing
        &&& self.selected_index == 0
    }

    /// Starts in `current_dir` with the listing that was read of it, or with
    /// an empty one when the read failed.
    pub fn new(current_dir: String, listing: Result<Vec<FileEntry>, ClazyfilerError>) -> (r: Self)
        ensures
            r.current_dir == current_dir,
            r.selected_index == 0,
            match listing {
                Ok(files) => r.files == files,
                Err(_) => r.files@.len() == 0,
            },
            r.wf(),
    {
        let files = match listing {
            Ok(files) => files,
            Err(_) => Vec::new(),
        };
        NavigationState { current_dir, files, selected_index: 0 }
    }

    /// Takes a new reading of the current directory and clamps the cursor to
    /// it. A failed read is handed back and leaves the state as it was.
    pub fn refresh_files(&mut self, listing: Result<Vec<FileEntry>, ClazyfilerError>) -> (r: Result<
        (),
        ClazyfilerError,
    >)
        ensures
            match listing {
                Ok(files) => r is Ok && final(self).files == files && final(self).current_dir
                    == old(self).current_dir && final(self).selected_index == clamped(
                    old(self).selected_index as int,
                    files@.len() as int,
                ) && final(self).wf(),
                Err(e) => r == Err::<(), ClazyfilerError>(e) && *final(self) == *old(self),
            },
    {
        match listing {
            Ok(files) => {
                self.files = files;
                self.selected_index = clamp(self.selected_index, self.files.len());
                Ok(())
            },
            Err(e) => Err(e),
        }
    }

    /// Enters the directory under the cursor, whose listing was read as
    /// `listing`. Without a selection, with a file selected, or after a
    /// failed read nothing changes and the refusal is reported.
    pub fn enter_directory(&mut self, listing: Result<Vec<FileEntry>, ClazyfilerError>) -> (r: Result<
        (),
        ClazyfilerError,
    >)
        ensures
            if old(self).selected_index < old(self).files@.len() {
                let file = old(self).files@[old(self).selected_index as int];
                if file.is_directory {
                    match listing {
                        Ok(files) => r is Ok && final(self).is_arrival(file.path@, files@)
                            && final(self).wf(),
                        Err(e) => r == Err::<(), ClazyfilerError>(e) && *final(self) == *old(self),
                    }
                } else {
                    *final(self) == *old(self) && not_a_directory_error(r, file.path@)
                }
            } else {
                *final(self) == *old(self) && no_selection_error(r, old(self).current_dir@)
            },
    {
        if self.selected_index < self.files.len() {
            if self.files[self.selected_index].is_directory {
                match listing {
                    Ok(files) => {
                        self.current_dir = self.files[self.selected_index].path.clone();
                        self.selected_index = 0;
                        self.files = files;
                        Ok(())
                    },
                    Err(e) => Err(e),
                }
            } else {
                Err(
                    ClazyfilerError::navigation(
                        self.files[self.selected_index].path.as_str(),
                        "Selected item is not a directory",
                    ),
                )
            }
        } else {
            Err(ClazyfilerError::navigation(self.current_dir.as_str(), "No file selected"))
        }
    }

    /// Moves to the parent of the current directory; `listing` is what
    /// reading the parent gave. At the root, where there is no parent, and
    /// after a failed read nothing changes and the refusal is reported.
    pub fn go_to_parent(&mut self, listing: Result<Vec<FileEntry>, ClazyfilerError>) -> (r: Result<
        (),
        ClazyfilerError,
    >)
        ensures
            match (parent_of(old(self).current_dir@), listing) {
                (Some(dir), Ok(files)) => r is Ok && final(self).is_arrival(dir, files@) && final(self).wf(),
                (Some(_), Err(e)) => r == Err::<(), ClazyfilerError>(e) && *final(self) == *old(self),
                (None, _) => *final(self) == *old(self) && at_root_error(r, old(self).current_dir@),
            },
    {
        match parent_of_path(self.current_dir.as_str()) {
            Some(dir) => match listing {
                Ok(files) => {
                    self.current_dir = dir;
                    self.selected_index = 0;
                    self.files = files;
                    Ok(())
                },
                Err(e) => Err(e),
            },
            None => Err(
                ClazyfilerError::navigation(self.current_dir.as_str(), "Already at root directory"),
            ),
        }
    }

    pub fn move_selection_up(&mut self)
        ensures
            final(self).selected_index == moved_up(old(self).selected_index as int),
            final(self).files == old(self).files,
            final(self).current_dir == old(self).current_dir,
            old(self).wf() ==> final(self).wf(),
    {
        self.selected_index = step_up(self.selected_index);
    }

    pub fn move_selection_down(&mut self)
        ensures
            final(self).selected_index == moved_down(
                old(self).selected_index as int,
                old(self).files@.len() as int,
            ),
            final(self).files == old(self).files,
            final(self).current_dir == old(self).current_dir,
            old(self).wf() ==> final(self).wf(),
    {
        self.selected_index = step_down(self.selected_index, self.files.len());
    }

    /// The file under the cursor.
    pub fn get_selected_file(&self) -> (r: Option<&FileEntry>)
        ensures
            match r {
                Some(file) => self.selected_index < self.files@.len() && *file
                    == self.files@[self.selected_index as int],
                None => self.selected_index >= self.files@.len(),
            },
    {
        self.get_file(self.selected_index)
    }

    pub fn files_len(&self) -> (r: usize)
        ensures
            r == self.files@.len(),
    {
        self.files.len()
    }

    /// The listed file at `index`.
    pub fn get_file(&self, index: usize) -> (r: Option<&FileEntry>)
        ensures
            match r {
                Some(file) => index < self.files@.len() && *file == self.files@[index as int],
                None => index >= self.files@.len(),
            },
    {
        if index < self.files.len() {
            Some(&self.files[index])
        } else {
            None
        }
    }
}

} // verus!
