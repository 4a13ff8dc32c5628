//! Modes that map keys to actions first and carry the actions out second.

use vstd::prelude::*;
use crate::actions::{Action, ModeSwitchAction};
use crate::key::KeyEvent;
use crate::modes::explore::{explore_actions, explore_dispatched, ExploreMode};
use crate::modes::search::{search_actions, search_dispatched, SearchMode};
use crate::state::{AppState, FileEntry};

pub mod explore;
pub mod interface;
pub mod search;

verus! {

/// The active mode. Exactly one is active at a time.
#[derive(Debug)]
pub enum Mode {
    Explore(ExploreMode),
    Search(SearchMode),
}

impl Mode {
    pub fn new_explore_mode() -> (r: Self)
        ensures
            r == Mode::Explore(ExploreMode {  }),
    {
        Mode::Explore(ExploreMode::new())
    }

    pub fn new_search_mode() -> (r: Self)
        ensures
            r == Mode::Search(SearchMode {  }),
    {
        Mode::Search(SearchMode::new())
    }

    /// The actions that a key press asks for in the active mode.
    pub fn handle_key(&self, key: KeyEvent, state: &AppState) -> (r: Vec<Action>)
        ensures
            match *self {
                Mode::Explore(_) => r@ == explore_actions(*state, key),
                Mode::Search(_) => r@ == search_actions(key),
            },
    {
        match self {
            Mode::Explore(explore_mode) => explore_mode.handle_key(key, state),
            Mode::Search(search_mode) => search_mode.handle_key(key, state),
        }
    }

    /// Carries out an action in the active mode; see the modes for what
    /// `entries` is.
    pub fn dispatch(
        &mut self,
        action: Action,
        state: &mut AppState,
        entries: Result<Vec<FileEntry>, String>,
    ) -> (r: Result<(), String>)
        ensures
            *final(self) == *old(self),
            match *old(self) {
                Mode::Explore(_) => explore_dispatched(
                    *old(state),
                    action,
                    entries,
                    *final(state),
                    r,
                ),
                Mode::Search(_) => r is Ok && search_dispatched(*old(state), action, *final(state)),
            },
            old(state).wf() ==> final(state).wf(),
    {
        match self {
            Mode::Explore(explore_mode) => explore_mode.dispatch(action, state, entries),
            Mode::Search(search_mode) => search_mode.dispatch(action, state),
        }
    }

    /// Replaces the active mode. Search is entered with an empty query, which
    /// shows every file; on the way back to Explore the query and the
    /// filtered listing are kept.
    pub fn switch_to(&mut self, switch_action: ModeSwitchAction, state: &mut AppState) -> (r: Result<
        (),
        String,
    >)
        ensures
            r is Ok,
            match switch_action {
                ModeSwitchAction::EnterExploreMode => *final(self) == Mode::Explore(
                    ExploreMode {  },
                ) && *final(state) == *old(state),
                ModeSwitchAction::EnterSearchMode => *final(self) == Mode::Search(SearchMode {  })
                    && final(state).is_update_of(old(state), Seq::empty()),
            },
            old(state).wf() ==> final(state).wf(),
    {
        match switch_action {
            ModeSwitchAction::EnterExploreMode => {
                *self = Mode::new_explore_mode();
            },
            ModeSwitchAction::EnterSearchMode => {
                state.clear_search_query();
                *self = Mode::new_search_mode();
            },
        }
        Ok(())
    }
}

} // verus!
