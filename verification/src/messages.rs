//! Messages from the key handlers to the host.

use vstd::prelude::*;

verus! {

/// What a key handler asks of the host: to end the session, to change the
/// handler, or to do outside work and hand the result to the model.
#[derive(Debug, PartialEq, Eq)]
pub enum AppMessage {
    Quit,
    /// Open the selected file in the editor.
    OpenFile,
    SwitchToExploreHandler,
    /// Back to Explore with the search results kept on screen.
    SwitchToExploreHandlerKeepQuery,
    SwitchToSearchHandler,
    /// Scan the tree below the current directory and start a fuzzy search.
    SwitchToFuzzyFindHandler,
    /// Show this text to the user.
    Error(String),
    /// Read the directory at this path and move into it.
    EnterDirectory(String),
    /// Read the parent of the current directory and move into it.
    GoToParent,
    /// Read the current directory again.
    Refresh,
}

} // verus!
