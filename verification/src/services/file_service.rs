//! The rules around reading the file system.

use vstd::prelude::*;
use vstd::string::*;
use vstd::utf8::{decode_utf8, valid_utf8};
use crate::errors::ClazyfilerError;
use crate::listing::{is_directory_sorted, sort_listing};
use crate::model::FileEntry;
use crate::services::preview::{
    binary_notice, directory_preview, invalid_notice, preview_of_directory, preview_of_text,
    text_of_bytes, text_preview, too_large_notice,
};
use crate::text::{chars_are, chars_of, decimal_string};

verus! {

/// The rules of the browser's dealings with the file system: how a listing is
/// ordered, which directories a recursive scan leaves out, which files count
/// as binary, and what the preview shows of a file. Reading the file system
/// itself is the host's part.
#[derive(Debug)]
pub struct FileService {}

/// The parent of a path as `std::path::Path::parent` tells it from the text
/// of the path: the path without its final component, and none for a path
/// that ends in a root or is empty.
pub uninterp spec fn parent_of(path: Seq<char>) -> Option<Seq<char>>;

/// Calls `std::path::Path::parent` on the path and hands the parent back as
/// text. Trusted: the result is the parent of the path, a function of the
/// path's text alone, and the empty path has none.
#[verifier::external_body]
pub(crate) fn parent_of_path(path: &str) -> (r: Option<String>)
    ensures
        match r {
            Some(dir) => parent_of(path@) == Some(dir@),
            None => parent_of(path@) is None,
        },
        path@.len() == 0 ==> r is None,
{
    std::path::Path::new(path).parent().map(|p| p.to_string_lossy().into_owned())
}

/// A recursive scan does not descend into a directory of this name: hidden
/// directories, whose names start with a dot, and the usual places of build
/// output and caches.
pub open spec fn is_skipped_directory(name: Seq<char>) -> bool {
    ||| name.len() > 0 && name[0] == '.'
    ||| name == "node_modules"@
    ||| name == "target"@
    ||| name == "build"@
    ||| name == "dist"@
}

/// A byte that does not occur in text: NUL, or a control character other
/// than tab, line feed and carriage return.
pub open spec fn is_binary_byte(b: u8) -> bool {
    b == 0 || (b < 32 && b != 10 && b != 13 && b != 9)
}

/// Data that holds at least one byte that does not occur in text.
pub open spec fn is_binary_data(bytes: Seq<u8>) -> bool {
    exists|i: int| 0 <= i < bytes.len() && is_binary_byte(#[trigger] bytes[i])
}

/// The largest file, in bytes, whose content is shown.
pub const MAX_FILE_SIZE: u64 = 1048576;

/// What the preview shows of a file whose content is `bytes`: a notice for
/// a file that is too large, whose content is then not looked at, for binary
/// content and for content that is not valid UTF-8, and otherwise the text,
/// cut after its first hundred lines.
pub open spec fn preview_of(file: FileEntry, size_text: Seq<char>, bytes: Seq<u8>) -> Seq<char> {
    if file.size matches Some(size) && size > MAX_FILE_SIZE {
        too_large_notice(size_text, file.path@)
    } else if is_binary_data(bytes) {
        binary_notice(bytes.len(), file.path@)
    } else if !valid_utf8(bytes) {
        invalid_notice(file.path@)
    } else {
        text_preview(decode_utf8(bytes))
    }
}

impl FileService {
    pub fn new() -> (r: Self)
        ensures
            r == (FileService {  }),
    {
        FileService {  }
    }

    /// Puts what was read of a directory into the order in which it is
    /// shown: directories first, then by name without regard to case. A
    /// failed read is handed on.
    pub fn read_directory(&self, raw: Result<Vec<FileEntry>, ClazyfilerError>) -> (r: Result<
        Vec<FileEntry>,
        ClazyfilerError,
    >)
        ensures
            match raw {
                Ok(found) => r matches Ok(files) && is_directory_sorted(found@, files@)
                    && files@.len() == found@.len(),
                Err(e) => r == Err::<Vec<FileEntry>, ClazyfilerError>(e),
            },
    {
        match raw {
            Ok(found) => Ok(sort_listing(&found)),
            Err(e) => Err(e),
        }
    }

    /// The parent directory of a path, `None` where it has none. What is
    /// made of either answer is said by the functions that move to the
    /// parent, which take it as an argument.
    pub fn get_parent_dir(&self, path: &str) -> (r: Option<String>)
        ensures
            match r {
                Some(dir) => parent_of(path@) == Some(dir@),
                None => parent_of(path@) is None,
            },
            path@.len() == 0 ==> r is None,
    {
        parent_of_path(path)
    }

    /// Whether a recursive scan descends into a directory of this name.
    pub fn should_descend(&self, dir_name: &str) -> (r: bool)
        ensures
            r == !is_skipped_directory(dir_name@),
    {
        let name = chars_of(dir_name);
        if name.len() > 0 && name[0] == '.' {
            return false;
        }
        !(chars_are(&name, "node_modules") || chars_are(&name, "target") || chars_are(
            &name,
            "build",
        ) || chars_are(&name, "dist"))
    }

    /// Whether a file of this size is too large to be shown.
    pub fn is_too_large(&self, size: Option<u64>) -> (r: bool)
        ensures
            r == (size matches Some(bytes) && bytes > MAX_FILE_SIZE),
    {
        match size {
            Some(bytes) => bytes > MAX_FILE_SIZE,
            None => false,
        }
    }

    /// What the preview shows of a file. `size_text` is the size of the file
    /// as it is shown to the user; `bytes` is the content that was read,
    /// which is not looked at for a file that is too large.
    pub fn preview_text(&self, file: &FileEntry, size_text: &str, bytes: &Vec<u8>) -> (text: String)
        ensures
            text@ == preview_of(*file, size_text@, bytes@),
    {
        if self.is_too_large(file.size) {
            let mut text = String::from_str("\u{1f4c4} File too large to preview\n\nSize: ");
            text.append(size_text);
            text.append("\nPath: ");
            text.append(file.path.as_str());
            text.append("\n\nUse external editor to view this file.");
            return text;
        }
        if self.is_binary(bytes) {
            let mut text = String::from_str("\u{1f527} Binary file detected\n\nSize: ");
            let len = decimal_string(bytes.len() as u64);
            text.append(len.as_str());
            text.append(" bytes\nPath: ");
            text.append(file.path.as_str());
            text.append(
                "\n\nThis appears to be a binary file and cannot be displayed as text.",
            );
            return text;
        }
        match text_of_bytes(bytes) {
            Some(content) => preview_of_text(content.as_str()),
            None => {
                let mut text = String::from_str("\u{26a0}\u{fe0f} Invalid UTF-8 encoding\n\nPath: ");
                text.append(file.path.as_str());
                text.append("\n\nFile contains non-UTF-8 data and cannot be displayed.");
                text
            },
        }
    }

    /// What the preview shows of a directory whose entries were read as
    /// `children`, each with the text of its size; see
    /// [`preview_of_directory`].
    pub fn list_directory_children(&self, children: &Vec<(FileEntry, String)>) -> (text: String)
        ensures
            text@ == directory_preview(children@),
    {
        preview_of_directory(children)
    }

    /// Whether the content of a file is binary and cannot be shown as text.
    pub fn is_binary(&self, bytes: &Vec<u8>) -> (r: bool)
        ensures
            r == is_binary_data(bytes@),
    {
        let mut i: usize = 0;
        while i < bytes.len()
            invariant
                i <= bytes.len(),
                forall|j: int| 0 <= j < i ==> !is_binary_byte(#[trigger] bytes@[j]),
            decreases bytes.len() - i,
        {
            let b = bytes[i];
            if b == 0 || (b < 32 && b != 10 && b != 13 && b != 9) {
                return true;
            }
            i += 1;
        }
        false
    }
}

} // verus!
