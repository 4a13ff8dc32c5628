//! The errors of the browser and the messages shown for them.

use vstd::prelude::*;
use vstd::string::*;

verus! {

/// What can go wrong in the browser. Each error carries the texts that its
/// message is made of; none of them ends the session.
#[derive(Debug, PartialEq, Eq)]
pub enum ClazyfilerError {
    /// Reading the file system failed; `source` is the system's own report.
    FileSystem { operation: String, path: String, source: String },
    /// The editor could not be chosen, started, or ended with a failure.
    Editor { command: String, message: String },
    /// A terminal operation failed.
    Terminal { operation: String, message: String },
    /// The configuration could not be read or written.
    Config { message: String },
    /// A search could not be carried out.
    Search { query: String, message: String },
    /// A move to another directory was refused.
    Navigation { path: String, message: String },
    /// A file's content could not be shown.
    Content { file_path: String, message: String },
}

impl ClazyfilerError {
    /// The text shown to the user for this error.
    pub open spec fn message_chars(self) -> Seq<char> {
        match self {
            ClazyfilerError::FileSystem { operation, path, source } => {
                "File system error during '"@ + operation@ + "' on '"@ + path@ + "': "@ + source@
            },
            ClazyfilerError::Editor { command, message } => {
                "Editor error with '"@ + command@ + "': "@ + message@
            },
            ClazyfilerError::Terminal { operation, message } => {
                "Terminal error during '"@ + operation@ + "': "@ + message@
            },
            ClazyfilerError::Config { message } => "Configuration error: "@ + message@,
            ClazyfilerError::Search { query, message } => {
                "Search error for '"@ + query@ + "': "@ + message@
            },
            ClazyfilerError::Navigation { path, message } => {
                "Navigation error for '"@ + path@ + "': "@ + message@
            },
            ClazyfilerError::Content { file_path, message } => {
                "Content error for '"@ + file_path@ + "': "@ + message@
            },
        }
    }

    pub fn file_system(operation: &str, path: &str, source: &str) -> (e: Self)
        ensures
            e matches ClazyfilerError::FileSystem { operation: o, path: p, source: s }
                && o@ == operation@ && p@ == path@ && s@ == source@,
    {
        ClazyfilerError::FileSystem {
            operation: String::from_str(operation),
            path: String::from_str(path),
            source: String::from_str(source),
        }
    }

    pub fn editor(command: &str, message: &str) -> (e: Self)
        ensures
            e matches ClazyfilerError::Editor { command: c, message: m } && c@ == command@ && m@
                == message@,
    {
        ClazyfilerError::Editor {
            command: String::from_str(command),
            message: String::from_str(message),
        }
    }

    pub fn terminal(operation: &str, message: &str) -> (e: Self)
        ensures
            e matches ClazyfilerError::Terminal { operation: o, message: m } && o@ == operation@
                && m@ == message@,
    {
        ClazyfilerError::Terminal {
            operation: String::from_str(operation),
            message: String::from_str(message),
        }
    }

    pub fn config(message: &str) -> (e: Self)
        ensures
            e matches ClazyfilerError::Config { message: m } && m@ == message@,
    {
        ClazyfilerError::Config { message: String::from_str(message) }
    }

    pub fn search(query: &str, message: &str) -> (e: Self)
        ensures
            e matches ClazyfilerError::Search { query: q, message: m } && q@ == query@ && m@
                == message@,
    {
        ClazyfilerError::Search {
            query: String::from_str(query),
            message: String::from_str(message),
        }
    }

    pub fn navigation(path: &str, message: &str) -> (e: Self)
        ensures
            e matches ClazyfilerError::Navigation { path: p, message: m } && p@ == path@ && m@
                == message@,
    {
        ClazyfilerError::Navigation {
            path: String::from_str(path),
            message: String::from_str(message),
        }
    }

    pub fn content(file_path: &str, message: &str) -> (e: Self)
        ensures
            e matches ClazyfilerError::Content { file_path: p, message: m } && p@ == file_path@
                && m@ == message@,
    {
        ClazyfilerError::Content {
            file_path: String::from_str(file_path),
            message: String::from_str(message),
        }
    }

    /// The text shown to the user for this error.
    pub fn message(&self) -> (text: String)
        ensures
            text@ == self.message_chars(),
    {
        match self {
            ClazyfilerError::FileSystem { operation, path, source } => {
                let mut text = String::from_str("File system error during '");
                text.append(operation.as_str());
                text.append("' on '");
                text.append(path.as_str());
                text.append("': ");
                text.append(source.as_str());
                text
            },
            ClazyfilerError::Editor { command, message } => {
                let mut text = String::from_str("Editor error with '");
                text.append(command.as_str());
                text.append("': ");
                text.append(message.as_str());
                text
            },
            ClazyfilerError::Terminal { operation, message } => {
                let mut text = String::from_str("Terminal error during '");
                text.append(operation.as_str());
                text.append("': ");
                text.append(message.as_str());
                text
            },
            ClazyfilerError::Config { message } => {
                let mut text = String::from_str("Configuration error: ");
                text.append(message.as_str());
                text
            },
            ClazyfilerError::Search { query, message } => {
                let mut text = String::from_str("Search error for '");
                text.append(query.as_str());
                text.append("': ");
                text.append(message.as_str());
                text
            },
            ClazyfilerError::Navigation { path, message } => {
                let mut text = String::from_str("Navigation error for '");
                text.append(path.as_str());
                text.append("': ");
                text.append(message.as_str());
                text
            },
            ClazyfilerError::Content { file_path, message } => {
                let mut text = String::from_str("Content error for '");
                text.append(file_path.as_str());
                text.append("': ");
                text.append(message.as_str());
                text
            },
        }
    }
}

} // verus!
