//! Keys in Explore mode.

use vstd::prelude::*;
use crate::cursor::{moved_down, moved_up};
use crate::key::{KeyCode, KeyEvent};
use crate::messages::AppMessage;
use crate::model::{AppModel, ModelView};

verus! {

/// Key handling while browsing a directory.
#[derive(Debug)]
pub struct ExploreHandler {}

/// What selecting the entry under the cursor asks of the host: to enter a
/// directory, to open a file, or nothing without a selection.
pub open spec fn select_message(v: ModelView) -> Option<AppMessage> {
    match v.selected_file() {
        Some(file) => if file.is_directory {
            Some(AppMessage::EnterDirectory(file.path))
        } else {
            Some(AppMessage::OpenFile)
        },
        None => None,
    }
}

/// The state after a key press in Explore mode: `j` and Down move the cursor
/// down, `k` and Up move it up, every other key leaves the state alone.
pub open spec fn explore_model(v: ModelView, key: KeyEvent) -> ModelView {
    match key.code {
        KeyCode::Char(c) => if c == 'j' {
            ModelView { selected_index: moved_down(v.selected_index, v.files.len() as int), ..v }
        } else if c == 'k' {
            ModelView { selected_index: moved_up(v.selected_index), ..v }
        } else {
            v
        },
        KeyCode::Down => ModelView {
            selected_index: moved_down(v.selected_index, v.files.len() as int),
            ..v
        },
        KeyCode::Up => ModelView { selected_index: moved_up(v.selected_index), ..v },
        _ => v,
    }
}

/// The message of a key press in Explore mode. The modifier keys play no part.
pub open spec fn explore_message(v: ModelView, key: KeyEvent) -> Option<AppMessage> {
    match key.code {
        KeyCode::Char(c) => if c == 'h' {
            Some(AppMessage::GoToParent)
        } else if c == 'l' {
            select_message(v)
        } else if c == 'r' {
            Some(AppMessage::Refresh)
        } else if c == '/' {
            Some(AppMessage::SwitchToSearchHandler)
        } else if c == 'f' {
            Some(AppMessage::SwitchToFuzzyFindHandler)
        } else if c == 'q' {
            Some(AppMessage::Quit)
        } else {
            None
        },
        KeyCode::Left => Some(AppMessage::GoToParent),
        KeyCode::Esc => Some(AppMessage::GoToParent),
        KeyCode::Right => select_message(v),
        KeyCode::Enter => select_message(v),
        KeyCode::F(n) => if n == 5 {
            Some(AppMessage::Refresh)
        } else {
            None
        },
        _ => None,
    }
}

/// The message for selecting the entry under the cursor.
pub fn selection_message(model: &AppModel) -> (r: Option<AppMessage>)
    ensures
        r == select_message(model@),
{
    match model.get_selected_file() {
        Some(file) => {
            if file.is_directory {
                Some(AppMessage::EnterDirectory(file.path.clone()))
            } else {
                Some(AppMessage::OpenFile)
            }
        },
        None => None,
    }
}

impl ExploreHandler {
    pub fn new() -> (r: Self)
        ensures
            r == (ExploreHandler {  }),
    {
        ExploreHandler {  }
    }

    /// Handles one key press: moves the cursor, or asks the host to
    /// navigate, to open a file, to change the mode or to quit.
    pub fn handle_key(&mut self, key: KeyEvent, model: &mut AppModel) -> (r: Option<AppMessage>)
        ensures
            final(model)@ == explore_model(old(model)@, key),
            r == explore_message(old(model)@, key),
            old(model).wf() ==> final(model).wf(),
    {
        match key.code {
            KeyCode::Char(c) => {
                if c == 'j' {
                    model.move_selection_down();
                    None
                } else if c == 'k' {
                    model.move_selection_up();
                    None
                } else if c == 'h' {
                    Some(AppMessage::GoToParent)
                } else if c == 'l' {
                    selection_message(model)
                } else if c == 'r' {
                    Some(AppMessage::Refresh)
                } else if c == '/' {
                    Some(AppMessage::SwitchToSearchHandler)
                } else if c == 'f' {
                    Some(AppMessage::SwitchToFuzzyFindHandler)
                } else if c == 'q' {
                    Some(AppMessage::Quit)
                } else {
                    None
                }
            },
            KeyCode::Down => {
                model.move_selection_down();
                None
            },
            KeyCode::Up => {
                model.move_selection_up();
                None
            },
            KeyCode::Left => Some(AppMessage::GoToParent),
            KeyCode::Esc => Some(AppMessage::GoToParent),
            KeyCode::Right => selection_message(model),
            KeyCode::Enter => selection_message(model),
            KeyCode::F(n) => {
                if n == 5 {
                    Some(AppMessage::Refresh)
                } else {
                    None
                }
            },
            _ => None,
        }
    }
}

} // verus!
