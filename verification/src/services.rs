//! The rules that the host follows where it touches the file system and
//! the editor.

pub mod editor_service;
pub mod file_service;
pub mod preview;

pub use editor_service::EditorService;
pub use file_service::FileService;
