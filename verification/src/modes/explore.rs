//! Explore mode: navigation.

use vstd::prelude::*;
use vstd::string::*;
use crate::actions::{Action, ModeSwitchAction};
use crate::cursor::{moved_down, moved_up};
use crate::key::{KeyCode, KeyEvent};
use crate::services::file_service::parent_of;
use crate::state::{AppState, FileEntry};

verus! {

/// Explore mode as a pair of functions: from a key press to the actions it
/// asks for, and from an action to the change of the state.
#[derive(Debug)]
pub struct ExploreMode {}

/// The action for selecting the entry under the cursor: files are opened,
/// anything else is entered.
pub open spec fn select_action(state: AppState) -> Action {
    match state.file_at(state.selected_index as int) {
        Some(file) => if file.is_directory {
            Action::Select
        } else {
            Action::OpenFile
        },
        None => Action::Select,
    }
}

/// The actions of a key press in Explore mode. The modifier keys play no
/// part.
pub open spec fn explore_actions(state: AppState, key: KeyEvent) -> Seq<Action> {
    match key.code {
        KeyCode::Char(c) => if c == 'j' {
            seq![Action::MoveDown]
        } else if c == 'k' {
            seq![Action::MoveUp]
        } else if c == 'h' {
            seq![Action::Back]
        } else if c == 'l' {
            seq![select_action(state)]
        } else if c == 'r' {
            seq![Action::Refresh]
        } else if c == '/' {
            seq![Action::SwitchMode(ModeSwitchAction::EnterSearchMode)]
        } else if c == 'q' {
            seq![Action::Quit]
        } else {
            Seq::empty()
        },
        KeyCode::Down => seq![Action::MoveDown],
        KeyCode::Up => seq![Action::MoveUp],
        KeyCode::Left => seq![Action::Back],
        KeyCode::Right => seq![select_action(state)],
        KeyCode::Enter => seq![select_action(state)],
        KeyCode::Esc => seq![Action::Back],
        KeyCode::F(n) => if n == 5 {
            seq![Action::Refresh]
        } else {
            Seq::empty()
        },
        _ => Seq::empty(),
    }
}

/// What carrying out an action in Explore mode does to the state and
/// returns. `entries` is what reading the directory gave that the action
/// leads to. A failed read is handed back and changes nothing.
pub open spec fn explore_dispatched(
    before: AppState,
    action: Action,
    entries: Result<Vec<FileEntry>, String>,
    after: AppState,
    r: Result<(), String>,
) -> bool {
    match action {
        Action::MoveUp => r is Ok && after == (AppState {
            selected_index: moved_up(before.selected_index as int) as usize,
            ..before
        }),
        Action::MoveDown => r is Ok && after == (AppState {
            selected_index: moved_down(
                before.selected_index as int,
                before.filtered_files@.len() as int,
            ) as usize,
            ..before
        }),
        Action::Select => match before.file_at(before.selected_index as int) {
            Some(file) => if file.is_directory {
                moved_into(before, file.path@, entries, after, r)
            } else {
                after == before && (r matches Err(text) && text@
                    == "Select action called on file (this is a bug)"@)
            },
            None => r is Ok && after == before,
        },
        Action::Back => match parent_of(before.current_dir@) {
            Some(dir) => moved_into(before, dir, entries, after, r),
            None => after == before && (r matches Err(text) && text@
                == "Already at root directory"@),
        },
        Action::Refresh => moved_into(before, before.current_dir@, entries, after, r),
        _ => r is Ok && after == before,
    }
}

/// The state lists `dir` as it was read, or is untouched where the read
/// failed, which `r` then reports.
pub open spec fn moved_into(
    before: AppState,
    dir: Seq<char>,
    entries: Result<Vec<FileEntry>, String>,
    after: AppState,
    r: Result<(), String>,
) -> bool {
    match entries {
        Ok(found) => r is Ok && after.is_listing_of(dir, found@),
        Err(e) => r == Err::<(), String>(e) && after == before,
    }
}

impl ExploreMode {
    pub fn new() -> (r: Self)
        ensures
            r == (ExploreMode {  }),
    {
        ExploreMode {  }
    }

    /// The action for selecting the entry under the cursor.
    pub fn selection_action(state: &AppState) -> (r: Action)
        ensures
            r == select_action(*state),
    {
        match state.get_selected_file() {
            Some(selected) => {
                if selected.is_directory {
                    Action::Select
                } else {
                    Action::OpenFile
                }
            },
            None => Action::Select,
        }
    }

    /// The actions that a key press asks for.
    pub fn handle_key(&self, key: KeyEvent, state: &AppState) -> (r: Vec<Action>)
        ensures
            r@ == explore_actions(*state, key),
    {
        match key.code {
            KeyCode::Char(c) => {
                if c == 'j' {
                    vec![Action::MoveDown]
                } else if c == 'k' {
                    vec![Action::MoveUp]
                } else if c == 'h' {
                    vec![Action::Back]
                } else if c == 'l' {
                    vec![ExploreMode::selection_action(state)]
                } else if c == 'r' {
                    vec![Action::Refresh]
                } else if c == '/' {
                    vec![Action::SwitchMode(ModeSwitchAction::EnterSearchMode)]
                } else if c == 'q' {
                    vec![Action::Quit]
                } else {
                    Vec::new()
                }
            },
            KeyCode::Down => vec![Action::MoveDown],
            KeyCode::Up => vec![Action::MoveUp],
            KeyCode::Left => vec![Action::Back],
            KeyCode::Right => vec![ExploreMode::selection_action(state)],
            KeyCode::Enter => vec![ExploreMode::selection_action(state)],
            KeyCode::Esc => vec![Action::Back],
            KeyCode::F(n) => {
                if n == 5 {
                    vec![Action::Refresh]
                } else {
                    Vec::new()
                }
            },
            _ => Vec::new(),
        }
    }

    /// Carries out an action. `entries` is what reading the directory gave
    /// that the action leads to: the selected one for `Select`, the parent of
    /// the current one for `Back`, the current one for `Refresh`.
    pub fn dispatch(
        &mut self,
        action: Action,
        state: &mut AppState,
        entries: Result<Vec<FileEntry>, String>,
    ) -> (r: Result<(), String>)
        ensures
            explore_dispatched(*old(state), action, entries, *final(state), r),
            old(state).wf() ==> final(state).wf(),
    {
        match action {
            Action::MoveUp => {
                state.move_selection_up();
                Ok(())
            },
            Action::MoveDown => {
                state.move_selection_down();
                Ok(())
            },
            Action::Select => {
                let on_file = match state.get_selected_file() {
                    Some(selected) => Some(!selected.is_directory),
                    None => None,
                };
                match on_file {
                    Some(is_file) => {
                        if is_file {
                            Err(String::from_str("Select action called on file (this is a bug)"))
                        } else {
                            state.enter_directory(entries)
                        }
                    },
                    None => Ok(()),
                }
            },
            Action::Back => state.go_to_parent(entries),
            Action::Refresh => state.refresh_files(entries),
            _ => Ok(()),
        }
    }
}

} // verus!
