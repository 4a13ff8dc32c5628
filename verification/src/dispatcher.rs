//! The dispatcher: the single place where actions change the store.

use vstd::prelude::*;
use vstd::string::*;
use crate::config::Config;
use crate::store::{FileEntry, Store};

verus! {

/// The two modes of the store: all files shown, or a search switched on.
#[derive(Debug, Clone, Copy, PartialEq, Eq)]
pub enum ModeType {
    Explore,
    Search,
}

/// Keeps which mode is active and carries out the entry and exit of the
/// search on the store.
#[derive(Debug)]
pub struct ModeManager {
    pub current: ModeType,
}

/// What can be asked of the store.
#[derive(Debug)]
pub enum StoreAction {
    /// Move the cursor by this many files.
    MoveSelection(isize),
    EnterDirectory,
    Back,
    /// Move to the directory at this path.
    LoadDirectory(String),
    Refresh,
    EnterSearchMode,
    ExitSearchMode,
    /// Search input: empty for Backspace, else the text to append.
    UpdateSearchQuery(String),
    SearchSelectFirst,
    Quit,
}

impl ModeManager {
    pub fn new() -> (r: Self)
        ensures
            r.current == ModeType::Explore,
    {
        ModeManager { current: ModeType::Explore }
    }

    /// Makes `mode` the active mode: entering Search switches the search of
    /// the store on, entering Explore switches it off.
    pub fn transition_to(&mut self, mode: ModeType, store: &mut Store)
        ensures
            final(self).current == mode,
            match mode {
                ModeType::Search => Store::search_entered(*old(store), *final(store)),
                ModeType::Explore => Store::search_left(*old(store), *final(store)),
            },
            final(store).wf(),
    {
        match mode {
            ModeType::Search => store.enter_search_mode(),
            ModeType::Explore => store.exit_search_mode(),
        }
        self.current = mode;
    }
}

/// The single place where the store is changed.
#[derive(Debug)]
pub struct Dispatcher {
    store: Store,
    mode_manager: ModeManager,
}

/// What moving to the directory at `path` does: the store lists it when the
/// working directory was changed and the directory was read, and stays as it
/// was otherwise.
pub open spec fn directory_loaded(
    before: Store,
    path: String,
    changed: Result<(), String>,
    entries: Result<Vec<FileEntry>, String>,
    after: Store,
    r: Result<(), String>,
) -> bool {
    match changed {
        Err(e) => after == before && (r matches Err(text) && text@ == "Failed to change directory: "@
            + e@),
        Ok(_) => match entries {
            Ok(found) => {
                &&& r is Ok
                &&& after.config == before.config
                &&& after.state.is_listing_of(&before.state, path@, found@)
            },
            Err(e) => after == before && (r matches Err(text) && text@
                == "Failed to load directory: "@ + e@),
        },
    }
}

/// What a new reading of the current directory does: the store lists it
/// anew, or stays as it was where the read failed.
pub open spec fn refreshed(
    before: Store,
    entries: Result<Vec<FileEntry>, String>,
    after: Store,
    r: Result<(), String>,
) -> bool {
    match entries {
        Ok(found) => {
            &&& r is Ok
            &&& after.config == before.config
            &&& after.state.is_listing_of(&before.state, before.state.current_dir@, found@)
        },
        Err(e) => after == before && (r matches Err(text) && text@ == "Failed to refresh: "@ + e@),
    }
}

impl Dispatcher {
    /// The store behind the dispatcher.
    pub closed spec fn store(&self) -> Store {
        self.store
    }

    /// The mode that is active.
    pub closed spec fn mode(&self) -> ModeType {
        self.mode_manager.current
    }

    /// Starts in Explore mode on a store for `current_dir`; see
    /// [`Store::new`].
    pub fn new(current_dir: String, config: Config, entries: Result<Vec<FileEntry>, String>) -> (r:
        Result<Self, String>)
        ensures
            match entries {
                Ok(found) => r matches Ok(dispatcher) && dispatcher.mode() == ModeType::Explore
                    && dispatcher.store().config == config && dispatcher.store().state.current_dir
                    == current_dir && crate::listing::is_directory_sorted(
                    found@,
                    dispatcher.store().state.files@,
                ) && dispatcher.store().state.selected_index == 0
                    && !dispatcher.store().state.search_mode && dispatcher.store().wf(),
                Err(e) => r == Err::<Self, String>(e),
            },
    {
        match Store::new(current_dir, config, entries) {
            Ok(store) => Ok(Dispatcher { store, mode_manager: ModeManager::new() }),
            Err(e) => Err(e),
        }
    }

    /// Carries out an action on the store. `changed` tells whether the process
    /// could make the directory that the action leads to its working
    /// directory, and `entries` is what reading that directory gave.
    pub fn dispatch(
        &mut self,
        action: StoreAction,
        changed: Result<(), String>,
        entries: Result<Vec<FileEntry>, String>,
    ) -> (r: Result<(), String>)
        ensures
            match action {
                StoreAction::MoveSelection(direction) => r is Ok && Store::moved(
                    old(self).store(),
                    direction,
                    final(self).store(),
                ) && final(self).mode() == old(self).mode(),
                StoreAction::EnterDirectory => Store::entered_directory(
                    old(self).store(),
                    changed,
                    entries,
                    final(self).store(),
                    r,
                ) && final(self).mode() == old(self).mode(),
                StoreAction::Back => Store::went_back(
                    old(self).store(),
                    changed,
                    entries,
                    final(self).store(),
                    r,
                ) && final(self).mode() == old(self).mode(),
                StoreAction::LoadDirectory(path) => directory_loaded(
                    old(self).store(),
                    path,
                    changed,
                    entries,
                    final(self).store(),
                    r,
                ) && final(self).mode() == old(self).mode(),
                StoreAction::Refresh => refreshed(
                    old(self).store(),
                    entries,
                    final(self).store(),
                    r,
                ) && final(self).mode() == old(self).mode(),
                StoreAction::EnterSearchMode => r is Ok && Store::search_entered(
                    old(self).store(),
                    final(self).store(),
                ) && final(self).mode() == ModeType::Search,
                StoreAction::ExitSearchMode => r is Ok && Store::search_left(
                    old(self).store(),
                    final(self).store(),
                ) && final(self).mode() == ModeType::Explore,
                StoreAction::UpdateSearchQuery(query) => r is Ok && Store::took_input(
                    old(self).store(),
                    query,
                    final(self).store(),
                ) && final(self).mode() == old(self).mode(),
                StoreAction::SearchSelectFirst => r is Ok && Store::match_selected(
                    old(self).store(),
                    final(self).store(),
                ) && final(self).mode() == old(self).mode(),
                StoreAction::Quit => r is Ok && *final(self) == *old(self),
            },
    {
        match action {
            StoreAction::MoveSelection(direction) => {
                self.store.move_selection(direction);
                Ok(())
            },
            StoreAction::EnterDirectory => self.store.enter_directory(changed, entries),
            StoreAction::Back => self.store.go_back(changed, entries),
            StoreAction::LoadDirectory(path) => match changed {
                Ok(_) => match entries {
                    Ok(found) => {
                        self.store.state.current_dir = path;
                        let _ = self.store.load_files(Ok(found));
                        Ok(())
                    },
                    Err(e) => {
                        let mut text = String::from_str("Failed to load directory: ");
                        text.append(e.as_str());
                        Err(text)
                    },
                },
                Err(e) => {
                    let mut text = String::from_str("Failed to change directory: ");
                    text.append(e.as_str());
                    Err(text)
                },
            },
            StoreAction::Refresh => match self.store.load_files(entries) {
                Ok(_) => Ok(()),
                Err(e) => {
                    let mut text = String::from_str("Failed to refresh: ");
                    text.append(e.as_str());
                    Err(text)
                },
            },
            StoreAction::EnterSearchMode => {
                self.mode_manager.transition_to(ModeType::Search, &mut self.store);
                Ok(())
            },
            StoreAction::ExitSearchMode => {
                self.mode_manager.transition_to(ModeType::Explore, &mut self.store);
                Ok(())
            },
            StoreAction::UpdateSearchQuery(query) => {
                self.store.handle_search_input(query);
                Ok(())
            },
            StoreAction::SearchSelectFirst => {
                self.store.select_first_match();
                Ok(())
            },
            StoreAction::Quit => Ok(()),
        }
    }

    pub fn get_store(&self) -> (r: &Store)
        ensures
            *r == self.store(),
    {
        &self.store
    }

    pub fn get_mode_manager(&self) -> (r: &ModeManager)
        ensures
            r.current == self.mode(),
    {
        &self.mode_manager
    }
}

} // verus!
