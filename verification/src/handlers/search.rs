//! Keys in Search mode, and the edits of a query that Search and
//! FuzzyFind share.

use vstd::prelude::*;
use crate::cursor::{moved_down, moved_up};
use crate::key::{KeyCode, KeyEvent, KeyModifiers};
use crate::messages::AppMessage;
use crate::model::{AppModel, ModelView};
use crate::text::{without_last_char, without_last_word};

verus! {

/// Key handling while the query narrows the current directory.
#[derive(Debug)]
pub struct SearchHandler {}

/// What a key press means while a query is edited.
pub enum QueryEdit {
    /// Append the character.
    Append(char),
    /// Remove the last character.
    Pop,
    /// Delete backward to the previous space.
    DeleteWord,
    /// Empty the query.
    Clear,
    CursorUp,
    CursorDown,
    /// The key does not touch the state.
    Keep,
}

/// The state after an edit.
pub open spec fn edited(v: ModelView, edit: QueryEdit) -> ModelView {
    match edit {
        QueryEdit::Append(c) => v.with_query(v.query_text.push(c)),
        QueryEdit::Pop => v.with_query(without_last_char(v.query_text)),
        QueryEdit::DeleteWord => v.with_query(without_last_word(v.query_text)),
        QueryEdit::Clear => v.with_query(Seq::empty()),
        QueryEdit::CursorUp => ModelView { selected_index: moved_up(v.selected_index), ..v },
        QueryEdit::CursorDown => ModelView {
            selected_index: moved_down(v.selected_index, v.files.len() as int),
            ..v
        },
        QueryEdit::Keep => v,
    }
}

/// The edit that a key press stands for in Search mode. Enter leaves for
/// Explore with the query kept; Esc and Control-C empty the query on their
/// way out. Without a modifier a character key appends its character, Down
/// and Up move the cursor, Backspace and Delete remove the last character.
/// With Control, `n` and `p` move the cursor, `h` removes the last character,
/// `w` deletes a word, and `u`, `k` and `l` empty the query.
pub open spec fn search_edit(key: KeyEvent) -> QueryEdit {
    match key.modifiers {
        KeyModifiers::Plain => match key.code {
            KeyCode::Esc => QueryEdit::Clear,
            KeyCode::Down => QueryEdit::CursorDown,
            KeyCode::Up => QueryEdit::CursorUp,
            KeyCode::Backspace => QueryEdit::Pop,
            KeyCode::Delete => QueryEdit::Pop,
            KeyCode::Char(c) => QueryEdit::Append(c),
            _ => QueryEdit::Keep,
        },
        KeyModifiers::Control => match key.code {
            KeyCode::Char(c) => if c == 'c' || c == 'u' || c == 'k' || c == 'l' {
                QueryEdit::Clear
            } else if c == 'n' {
                QueryEdit::CursorDown
            } else if c == 'p' {
                QueryEdit::CursorUp
            } else if c == 'h' {
                QueryEdit::Pop
            } else if c == 'w' {
                QueryEdit::DeleteWord
            } else {
                QueryEdit::Keep
            },
            _ => QueryEdit::Keep,
        },
        KeyModifiers::Other => QueryEdit::Keep,
    }
}

/// The message of a key press in Search mode.
pub open spec fn search_message(key: KeyEvent) -> Option<AppMessage> {
    match key.modifiers {
        KeyModifiers::Plain => match key.code {
            KeyCode::Enter => Some(AppMessage::SwitchToExploreHandlerKeepQuery),
            KeyCode::Esc => Some(AppMessage::SwitchToExploreHandler),
            _ => None,
        },
        KeyModifiers::Control => match key.code {
            KeyCode::Char(c) => if c == 'c' {
                Some(AppMessage::SwitchToExploreHandler)
            } else {
                None
            },
            _ => None,
        },
        KeyModifiers::Other => None,
    }
}

/// Carries out an edit on the model.
pub fn apply_edit(model: &mut AppModel, edit: QueryEdit)
    ensures
        final(model)@ == edited(old(model)@, edit),
        old(model).wf() ==> final(model).wf(),
{
    match edit {
        QueryEdit::Append(c) => model.append_to_query(c),
        QueryEdit::Pop => model.pop_from_query(),
        QueryEdit::DeleteWord => model.delete_word_backward(),
        QueryEdit::Clear => model.clear_query(),
        QueryEdit::CursorUp => model.move_selection_up(),
        QueryEdit::CursorDown => model.move_selection_down(),
        QueryEdit::Keep => {},
    }
}

impl SearchHandler {
    pub fn new() -> (r: Self)
        ensures
            r == (SearchHandler {  }),
    {
        SearchHandler {  }
    }

    /// The edit that a key press stands for in Search mode.
    pub fn edit_for(key: KeyEvent) -> (edit: QueryEdit)
        ensures
            edit == search_edit(key),
    {
        match key.modifiers {
            KeyModifiers::Plain => match key.code {
                KeyCode::Esc => QueryEdit::Clear,
                KeyCode::Down => QueryEdit::CursorDown,
                KeyCode::Up => QueryEdit::CursorUp,
                KeyCode::Backspace => QueryEdit::Pop,
                KeyCode::Delete => QueryEdit::Pop,
                KeyCode::Char(c) => QueryEdit::Append(c),
                _ => QueryEdit::Keep,
            },
            KeyModifiers::Control => match key.code {
                KeyCode::Char(c) => {
                    if c == 'c' || c == 'u' || c == 'k' || c == 'l' {
                        QueryEdit::Clear
                    } else if c == 'n' {
                        QueryEdit::CursorDown
                    } else if c == 'p' {
                        QueryEdit::CursorUp
                    } else if c == 'h' {
                        QueryEdit::Pop
                    } else if c == 'w' {
                        QueryEdit::DeleteWord
                    } else {
                        QueryEdit::Keep
                    }
                },
                _ => QueryEdit::Keep,
            },
            KeyModifiers::Other => QueryEdit::Keep,
        }
    }

    /// Handles one key press: edits the query, moves the cursor, or asks the
    /// host to go back to Explore.
    pub fn handle_key(&mut self, key: KeyEvent, model: &mut AppModel) -> (r: Option<AppMessage>)
        ensures
            final(model)@ == edited(old(model)@, search_edit(key)),
            r == search_message(key),
            old(model).wf() ==> final(model).wf(),
    {
        apply_edit(model, SearchHandler::edit_for(key));
        match key.modifiers {
            KeyModifiers::Plain => match key.code {
                KeyCode::Enter => Some(AppMessage::SwitchToExploreHandlerKeepQuery),
                KeyCode::Esc => Some(AppMessage::SwitchToExploreHandler),
                _ => None,
            },
            KeyModifiers::Control => match key.code {
                KeyCode::Char(c) => {
                    if c == 'c' {
                        Some(AppMessage::SwitchToExploreHandler)
                    } else {
                        None
                    }
                },
                _ => None,
            },
            KeyModifiers::Other => None,
        }
    }
}

} // verus!
