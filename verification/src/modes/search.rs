//! Search mode: editing the query.

use vstd::prelude::*;
use crate::actions::{Action, ModeSwitchAction};
use crate::cursor::{moved_down, moved_up};
use crate::key::{KeyCode, KeyEvent, KeyModifiers};
use crate::state::AppState;
use crate::text::{without_last_char, without_last_word};

verus! {

/// Search mode as a pair of functions: from a key press to the actions it
/// asks for, and from an action to the change of the state.
#[derive(Debug)]
pub struct SearchMode {}

/// The actions of a key press in Search mode. Enter leaves for Explore; Esc
/// and Control-C empty the query first.
pub open spec fn search_actions(key: KeyEvent) -> Seq<Action> {
    match key.modifiers {
        KeyModifiers::Plain => match key.code {
            KeyCode::Enter => seq![Action::SwitchMode(ModeSwitchAction::EnterExploreMode)],
            KeyCode::Esc => seq![
                Action::SearchClear,
                Action::SwitchMode(ModeSwitchAction::EnterExploreMode),
            ],
            KeyCode::Backspace => seq![Action::SearchPop],
            KeyCode::Delete => seq![Action::SearchPop],
            KeyCode::Char(c) => seq![Action::SearchInput(c)],
            _ => Seq::empty(),
        },
        KeyModifiers::Control => match key.code {
            KeyCode::Char(c) => if c == 'c' {
                seq![Action::SearchClear, Action::SwitchMode(ModeSwitchAction::EnterExploreMode)]
            } else if c == 'h' {
                seq![Action::SearchPop]
            } else if c == 'u' || c == 'l' {
                seq![Action::SearchClear]
            } else if c == 'k' {
                seq![Action::SearchDeleteToEnd]
            } else if c == 'w' {
                seq![Action::SearchDeleteWord]
            } else if c == 'a' {
                seq![Action::SearchHome]
            } else if c == 'e' {
                seq![Action::SearchEnd]
            } else {
                Seq::empty()
            },
            _ => Seq::empty(),
        },
        KeyModifiers::Other => Seq::empty(),
    }
}

/// What carrying out an action in Search mode does to the state.
pub open spec fn search_dispatched(before: AppState, action: Action, after: AppState) -> bool {
    match action {
        Action::MoveUp => after == (AppState {
            selected_index: moved_up(before.selected_index as int) as usize,
            ..before
        }),
        Action::MoveDown => after == (AppState {
            selected_index: moved_down(
                before.selected_index as int,
                before.filtered_files@.len() as int,
            ) as usize,
            ..before
        }),
        Action::SearchInput(c) => after.is_update_of(&before, before.search_query@.push(c)),
        Action::SearchPop => after.is_update_of(&before, without_last_char(before.search_query@)),
        Action::SearchClear => after.is_update_of(&before, Seq::empty()),
        Action::SearchDeleteWord => after.is_update_of(
            &before,
            without_last_word(before.search_query@),
        ),
        Action::SearchDeleteToEnd => after.is_update_of(&before, Seq::empty()),
        _ => after == before,
    }
}

impl SearchMode {
    pub fn new() -> (r: Self)
        ensures
            r == (SearchMode {  }),
    {
        SearchMode {  }
    }

    /// The actions that a key press asks for.
    pub fn handle_key(&self, key: KeyEvent, _state: &AppState) -> (r: Vec<Action>)
        ensures
            r@ == search_actions(key),
    {
        match key.modifiers {
            KeyModifiers::Plain => match key.code {
                KeyCode::Enter => vec![Action::SwitchMode(ModeSwitchAction::EnterExploreMode)],
                KeyCode::Esc => vec![
                    Action::SearchClear,
                    Action::SwitchMode(ModeSwitchAction::EnterExploreMode),
                ],
                KeyCode::Backspace => vec![Action::SearchPop],
                KeyCode::Delete => vec![Action::SearchPop],
                KeyCode::Char(c) => vec![Action::SearchInput(c)],
                _ => Vec::new(),
            },
            KeyModifiers::Control => match key.code {
                KeyCode::Char(c) => {
                    if c == 'c' {
                        vec![
                            Action::SearchClear,
                            Action::SwitchMode(ModeSwitchAction::EnterExploreMode),
                        ]
                    } else if c == 'h' {
                        vec![Action::SearchPop]
                    } else if c == 'u' || c == 'l' {
                        vec![Action::SearchClear]
                    } else if c == 'k' {
                        vec![Action::SearchDeleteToEnd]
                    } else if c == 'w' {
                        vec![Action::SearchDeleteWord]
                    } else if c == 'a' {
                        vec![Action::SearchHome]
                    } else if c == 'e' {
                        vec![Action::SearchEnd]
                    } else {
                        Vec::new()
                    }
                },
                _ => Vec::new(),
            },
            KeyModifiers::Other => Vec::new(),
        }
    }

    /// Carries out an action: moves the cursor or edits the query. Actions
    /// that mean nothing in Search mode change nothing.
    pub fn dispatch(&mut self, action: Action, state: &mut AppState) -> (r: Result<(), String>)
        ensures
            r is Ok,
            search_dispatched(*old(state), action, *final(state)),
            old(state).wf() ==> final(state).wf(),
    {
        match action {
            Action::MoveUp => state.move_selection_up(),
            Action::MoveDown => state.move_selection_down(),
            Action::SearchInput(c) => state.append_search_query(c),
            Action::SearchPop => state.pop_search_query(),
            Action::SearchClear => state.clear_search_query(),
            Action::SearchDeleteWord => state.delete_word_backward(),
            Action::SearchDeleteToEnd => state.delete_to_end(),
            _ => {},
        }
        Ok(())
    }
}

} // verus!
