//! Actions: what a key press asks for in the modes that separate the
//! reading of keys from the change of the state.

use vstd::prelude::*;

verus! {

/// What a key press asks for, before it is carried out.
#[derive(Debug, Clone, Copy, PartialEq, Eq, Hash)]
pub enum Action {
    Quit,
    MoveUp,
    MoveDown,
    MoveLeft,
    MoveRight,
    /// Enter the selected directory.
    Select,
    /// Open the selected file in the editor.
    OpenFile,
    Back,
    Refresh,
    SwitchMode(ModeSwitchAction),
    SearchInput(char),
    SearchClear,
    SearchPop,
    /// Delete the query back to the previous space.
    SearchDeleteWord,
    /// Delete the query to its end.
    SearchDeleteToEnd,
    SearchHome,
    SearchEnd,
}

#[derive(Debug, Clone, Copy, PartialEq, Eq, Hash)]
pub enum ModeSwitchAction {
    EnterExploreMode,
    EnterSearchMode,
}

} // verus!
