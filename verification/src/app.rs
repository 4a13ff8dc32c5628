//! The part of the event loop that needs no outside work, and the laws
//! that hold of the changes between modes.

use vstd::prelude::*;
use vstd::string::*;
use crate::errors::ClazyfilerError;
use crate::handlers::explore::ExploreHandler;
use crate::handlers::fuzzy_find::FuzzyFindHandler;
use crate::handlers::search::{edited, search_edit, search_message, SearchHandler};
use crate::handlers::{handled_message, handled_model, Handler};
use crate::key::{KeyCode, KeyEvent, KeyModifiers};
use crate::listing::all_indices;
use crate::listing::picked;
use crate::messages::AppMessage;
use crate::model::{AppMode, AppModel, FileEntry, ModelView};

verus! {

/// The handler is that of the model's mode.
pub open spec fn in_step(handler: Handler, v: ModelView) -> bool {
    match handler {
        Handler::Explore(_) => v.mode == AppMode::Explore,
        Handler::Search(_) => v.mode == AppMode::Search,
        Handler::FuzzyFind(_) => v.mode == AppMode::FuzzyFind,
    }
}

/// Carries out the messages that need no outside work: the changes between
/// Explore and Search. The model and the handler change together. Every
/// other message is handed back for the host to act on.
///
/// Leaving Search by Enter keeps the query and the filtered listing; leaving
/// it by Esc, which empties the query first, shows the whole directory again.
/// Search is entered with an empty query.
pub fn process_message(handler: &mut Handler, model: &mut AppModel, message: AppMessage) -> (rest:
    Option<AppMessage>)
    ensures
        match message {
            AppMessage::SwitchToExploreHandler => {
                &&& rest is None
                &&& final(model)@ == old(model)@.back_to_explore()
                &&& *final(handler) == Handler::Explore(ExploreHandler {  })
                &&& final(model).wf()
            },
            AppMessage::SwitchToExploreHandlerKeepQuery => {
                &&& rest is None
                &&& final(model)@ == old(model)@.with_mode(AppMode::Explore)
                &&& *final(handler) == Handler::Explore(ExploreHandler {  })
                &&& final(model).wf()
            },
            AppMessage::SwitchToSearchHandler => {
                &&& rest is None
                &&& final(model)@ == old(model)@.searching()
                &&& *final(handler) == Handler::Search(SearchHandler {  })
                &&& final(model).wf()
            },
            _ => {
                &&& rest == Some(message)
                &&& *final(model) == *old(model)
                &&& *final(handler) == *old(handler)
            },
        },
        in_step(*old(handler), old(model)@) || rest is None ==> in_step(
            *final(handler),
            final(model)@,
        ),
{
    match message {
        AppMessage::SwitchToExploreHandler => {
            model.switch_to_explore_mode();
            *handler = Handler::new_explore_handler();
            None
        },
        AppMessage::SwitchToExploreHandlerKeepQuery => {
            model.switch_to_explore_mode_keep_query();
            *handler = Handler::new_explore_handler();
            None
        },
        AppMessage::SwitchToSearchHandler => {
            model.switch_to_search_mode();
            *handler = Handler::new_search_handler();
            None
        },
        other => Some(other),
    }
}

/// The message of a key press as far as it is left for the host: a message
/// that only changes the mode is carried out at once and leaves nothing.
pub open spec fn key_rest(handler: Handler, v: ModelView, key: KeyEvent) -> Option<AppMessage> {
    match handled_message(handler, v, key) {
        Some(AppMessage::SwitchToExploreHandler) => None,
        Some(AppMessage::SwitchToExploreHandlerKeepQuery) => None,
        Some(AppMessage::SwitchToSearchHandler) => None,
        other => other,
    }
}

/// The handler after a key press.
pub open spec fn key_handler(handler: Handler, v: ModelView, key: KeyEvent) -> Handler {
    match handled_message(handler, v, key) {
        Some(AppMessage::SwitchToExploreHandler) => Handler::Explore(ExploreHandler {  }),
        Some(AppMessage::SwitchToExploreHandlerKeepQuery) => Handler::Explore(ExploreHandler {  }),
        Some(AppMessage::SwitchToSearchHandler) => Handler::Search(SearchHandler {  }),
        _ => handler,
    }
}

/// The model after a key press: what the handler made of it, and the change
/// of mode where the key asks for one.
pub open spec fn key_model(handler: Handler, v: ModelView, key: KeyEvent) -> ModelView {
    let handled = handled_model(handler, v, key);
    match handled_message(handler, v, key) {
        Some(AppMessage::SwitchToExploreHandler) => handled.back_to_explore(),
        Some(AppMessage::SwitchToExploreHandlerKeepQuery) => handled.with_mode(AppMode::Explore),
        Some(AppMessage::SwitchToSearchHandler) => handled.searching(),
        _ => handled,
    }
}

/// Takes one key press. Every key goes to the handler of the active mode,
/// none is decided before it; a change between Explore and Search that the
/// key asks for is carried out at once. What is handed back is left for the
/// host: to quit, to open a file, to read or scan a directory.
pub fn handle_key(handler: &mut Handler, model: &mut AppModel, key: KeyEvent) -> (rest: Option<
    AppMessage,
>)
    ensures
        final(model)@ == key_model(*old(handler), old(model)@, key),
        *final(handler) == key_handler(*old(handler), old(model)@, key),
        rest == key_rest(*old(handler), old(model)@, key),
        old(model).wf() ==> final(model).wf(),
        in_step(*old(handler), old(model)@) ==> in_step(*final(handler), final(model)@),
{
    match handler.handle_key(key, model) {
        Some(message) => process_message(handler, model, message),
        None => None,
    }
}

/// Starts a fuzzy search over the files that the scan of the current
/// directory gave. A failed scan changes neither mode nor state and is shown
/// to the user.
pub fn start_fuzzy_find(
    handler: &mut Handler,
    model: &mut AppModel,
    scan: Result<Vec<FileEntry>, ClazyfilerError>,
) -> (r: Option<AppMessage>)
    ensures
        match scan {
            Ok(found) => {
                &&& r is None
                &&& final(model)@ == old(model)@.scanned(found@)
                &&& final(model)@.query_text.len() == 0
                &&& final(model)@.files == found@
                &&& *final(handler) == Handler::FuzzyFind(FuzzyFindHandler {  })
                &&& final(model).wf()
            },

            Err(e) => *final(model) == *old(model) && *final(handler) == *old(handler) && (
            r matches Some(AppMessage::Error(text)) && text@ == "Failed to start fuzzy find: "@
                + e.message_chars()),
        },
        in_step(*old(handler), old(model)@) || r is None ==> in_step(
            *final(handler),
            final(model)@,
        ),
{
    match model.switch_to_fuzzy_find_mode(scan) {
        Ok(_) => {
            *handler = Handler::new_fuzzy_find_handler();
            None
        },
        Err(e) => {
            let mut text = String::from_str("Failed to start fuzzy find: ");
            let reason = e.message();
            text.append(reason.as_str());
            Some(AppMessage::Error(text))
        },
    }
}

/// A key press changes neither the handler nor the mode: the two stay in
/// step until a message changes both.
pub proof fn lemma_keys_keep_step(handler: Handler, v: ModelView, key: KeyEvent)
    requires
        in_step(handler, v),
    ensures
        in_step(handler, handled_model(handler, v, key)),
{
}

/// Leaving Search for Explore by Esc empties the query and shows every entry
/// of the current directory again, whatever the query and the cursor were.
pub proof fn lemma_escape_restores_listing(v: ModelView)
    requires
        v.directory_files.len() <= usize::MAX,
    ensures
        ({
            let esc = KeyEvent { code: KeyCode::Esc, modifiers: KeyModifiers::Plain };
            let left = edited(v, search_edit(esc)).back_to_explore();
            &&& key_model(Handler::Search(SearchHandler {  }), v, esc) == left
            &&& key_handler(Handler::Search(SearchHandler {  }), v, esc) == Handler::Explore(
                ExploreHandler {  },
            )
            &&& search_message(esc) == Some(AppMessage::SwitchToExploreHandler)
            &&& left.mode == AppMode::Explore
            &&& left.query_text.len() == 0
            &&& left.files == v.directory_files
            &&& left.wf()
        }),
{
    assert(picked(v.directory_files, all_indices(v.directory_files.len() as int))
        =~= v.directory_files);
}

/// Control-C leaves Search as Esc does: the query is emptied and every entry
/// of the current directory is shown again.
pub proof fn lemma_control_c_leaves_search(v: ModelView)
    ensures
        ({
            let esc = KeyEvent { code: KeyCode::Esc, modifiers: KeyModifiers::Plain };
            let control_c = KeyEvent { code: KeyCode::Char('c'), modifiers: KeyModifiers::Control };
            let search = Handler::Search(SearchHandler {  });
            &&& key_model(search, v, control_c) == key_model(search, v, esc)
            &&& key_handler(search, v, control_c) == Handler::Explore(ExploreHandler {  })
            &&& key_rest(search, v, control_c) is None
        }),
{
}

/// Whatever key is pressed under whatever handler, the cursor stays valid:
/// it points at a shown file, or at zero when none is shown.
pub proof fn lemma_keys_keep_cursor_valid(handler: Handler, v: ModelView, key: KeyEvent)
    requires
        v.wf(),
    ensures
        key_model(handler, v, key).wf(),
        key_model(handler, v, key).files.len() > 0 ==> 0 <= key_model(
            handler,
            v,
            key,
        ).selected_index < key_model(handler, v, key).files.len(),
        key_model(handler, v, key).files.len() == 0 ==> key_model(handler, v, key).selected_index
            == 0,
{
}

/// Reading the current directory twice with the same result gives the same
/// state as reading it once.
pub proof fn lemma_refresh_idempotent(v: ModelView, listing: Seq<FileEntry>)
    ensures
        v.relisted(listing).relisted(listing) == v.relisted(listing),
{
}

/// Arrival in a directory leaves no query behind and puts the cursor on the
/// first entry, whatever the state was before.
pub proof fn lemma_arrival_resets(dir: Seq<char>, listing: Seq<FileEntry>)
    ensures
        ModelView::arrived(dir, listing).query_text.len() == 0,
        ModelView::arrived(dir, listing).selected_index == 0,
        ModelView::arrived(dir, listing).current_dir == dir,
        ModelView::arrived(dir, listing).files == listing,
{
}

} // verus!
