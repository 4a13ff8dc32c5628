//! What the editor may be asked to open.

use vstd::prelude::*;
use crate::errors::ClazyfilerError;
use crate::model::FileEntry;

verus! {

/// The rule of what the editor may open. Finding and running the editor is
/// the host's part.
#[derive(Debug)]
pub struct EditorService {}

impl EditorService {
    pub fn new() -> (r: Self)
        ensures
            r == (EditorService {  }),
    {
        EditorService {  }
    }

    /// The path to hand to the editor for a file. Directories are refused.
    pub fn open_file(&self, file: &FileEntry) -> (r: Result<String, ClazyfilerError>)
        ensures
            if file.is_directory {
                r matches Err(ClazyfilerError::Editor { command, message }) && command@
                    == "editor"@ && message@ == "Cannot open directory with editor"@
            } else {
                r == Ok::<String, ClazyfilerError>(file.path)
            },
    {
        if file.is_directory {
            Err(ClazyfilerError::editor("editor", "Cannot open directory with editor"))
        } else {
            Ok(file.path.clone())
        }
    }
}

} // verus!
