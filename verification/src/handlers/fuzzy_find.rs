//! Keys in FuzzyFind mode.

use vstd::prelude::*;
use crate::handlers::explore::{select_message, selection_message};
use crate::handlers::search::{apply_edit, edited, QueryEdit};
use crate::key::{KeyCode, KeyEvent, KeyModifiers};
use crate::messages::AppMessage;
use crate::model::{AppModel, ModelView};

verus! {

/// Key handling while the query ranks the files of a scanned tree.
#[derive(Debug)]
pub struct FuzzyFindHandler {}

/// The edit that a key press stands for in FuzzyFind mode. Without a modifier
/// a character key appends its character, Down and Up move the cursor,
/// Backspace removes the last character. With Control, `n` and `p` move the
/// cursor, `w` deletes a word, and `u` and `k` empty the query.
pub open spec fn fuzzy_edit(key: KeyEvent) -> QueryEdit {
    match key.modifiers {
        KeyModifiers::Plain => match key.code {
            KeyCode::Down => QueryEdit::CursorDown,
            KeyCode::Up => QueryEdit::CursorUp,
            KeyCode::Backspace => QueryEdit::Pop,
            KeyCode::Char(c) => QueryEdit::Append(c),
            _ => QueryEdit::Keep,
        },
        KeyModifiers::Control => match key.code {
            KeyCode::Char(c) => if c == 'u' || c == 'k' {
                QueryEdit::Clear
            } else if c == 'n' {
                QueryEdit::CursorDown
            } else if c == 'p' {
                QueryEdit::CursorUp
            } else if c == 'w' {
                QueryEdit::DeleteWord
            } else {
                QueryEdit::Keep
            },
            _ => QueryEdit::Keep,
        },
        KeyModifiers::Other => QueryEdit::Keep,
    }
}

/// The message of a key press in FuzzyFind mode: Enter selects the entry under
/// the cursor, Esc leaves for Explore.
pub open spec fn fuzzy_message(v: ModelView, key: KeyEvent) -> Option<AppMessage> {
    match key.modifiers {
        KeyModifiers::Plain => match key.code {
            KeyCode::Enter => select_message(v),
            KeyCode::Esc => Some(AppMessage::SwitchToExploreHandler),
            _ => None,
        },
        _ => None,
    }
}

impl FuzzyFindHandler {
    pub fn new() -> (r: Self)
        ensures
            r == (FuzzyFindHandler {  }),
    {
        FuzzyFindHandler {  }
    }

    /// The edit that a key press stands for in FuzzyFind mode.
    pub fn edit_for(key: KeyEvent) -> (edit: QueryEdit)
        ensures
            edit == fuzzy_edit(key),
    {
        match key.modifiers {
            KeyModifiers::Plain => match key.code {
                KeyCode::Down => QueryEdit::CursorDown,
                KeyCode::Up => QueryEdit::CursorUp,
                KeyCode::Backspace => QueryEdit::Pop,
                KeyCode::Char(c) => QueryEdit::Append(c),
                _ => QueryEdit::Keep,
            },
            KeyModifiers::Control => match key.code {
                KeyCode::Char(c) => {
                    if c == 'u' || c == 'k' {
                        QueryEdit::Clear
                    } else if c == 'n' {
                        QueryEdit::CursorDown
                    } else if c == 'p' {
                        QueryEdit::CursorUp
                    } else if c == 'w' {
                        QueryEdit::DeleteWord
                    } else {
                        QueryEdit::Keep
                    }
                },
                _ => QueryEdit::Keep,
            },
            KeyModifiers::Other => QueryEdit::Keep,
        }
    }

    /// Handles one key press: edits the query, moves the cursor, or asks the
    /// host to open the selected match or to go back to Explore.
    pub fn handle_key(&mut self, key: KeyEvent, model: &mut AppModel) -> (r: Option<AppMessage>)
        ensures
            final(model)@ == edited(old(model)@, fuzzy_edit(key)),
            r == fuzzy_message(old(model)@, key),
            old(model).wf() ==> final(model).wf(),
    {
        match key.modifiers {
            KeyModifiers::Plain => match key.code {
                KeyCode::Enter => selection_message(model),
                KeyCode::Esc => Some(AppMessage::SwitchToExploreHandler),
                _ => {
                    apply_edit(model, FuzzyFindHandler::edit_for(key));
                    None
                },
            },
            _ => {
                apply_edit(model, FuzzyFindHandler::edit_for(key));
                None
            },
        }
    }
}

} // verus!
