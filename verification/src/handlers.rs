//! The handlers of the three modes: from a key press to a change of the
//! model and a message to the host.

use vstd::prelude::*;
use vstd::string::*;
use crate::errors::ClazyfilerError;
use crate::handlers::explore::{explore_message, explore_model, ExploreHandler};
use crate::handlers::fuzzy_find::{fuzzy_edit, fuzzy_message, FuzzyFindHandler};
use crate::handlers::search::{edited, search_edit, search_message, SearchHandler};
use crate::key::KeyEvent;
use crate::messages::AppMessage;
use crate::model::{AppModel, ModelView};

pub mod explore;
pub mod fuzzy_find;
pub mod interface;
pub mod search;

verus! {

/// The handler of the active mode. Exactly one is active at a time.
#[derive(Debug)]
pub enum Handler {
    Explore(ExploreHandler),
    Search(SearchHandler),
    FuzzyFind(FuzzyFindHandler),
}

/// The state after a key press under the given handler.
pub open spec fn handled_model(handler: Handler, v: ModelView, key: KeyEvent) -> ModelView {
    match handler {
        Handler::Explore(_) => explore_model(v, key),
        Handler::Search(_) => edited(v, search_edit(key)),
        Handler::FuzzyFind(_) => edited(v, fuzzy_edit(key)),
    }
}

/// The message of a key press under the given handler.
pub open spec fn handled_message(handler: Handler, v: ModelView, key: KeyEvent) -> Option<
    AppMessage,
> {
    match handler {
        Handler::Explore(_) => explore_message(v, key),
        Handler::Search(_) => search_message(key),
        Handler::FuzzyFind(_) => fuzzy_message(v, key),
    }
}

/// The handler that a message switches to, if it is a message to switch.
pub open spec fn switch_target(message: AppMessage) -> Option<Handler> {
    match message {
        AppMessage::SwitchToExploreHandler => Some(Handler::Explore(ExploreHandler {  })),
        AppMessage::SwitchToExploreHandlerKeepQuery => Some(Handler::Explore(ExploreHandler {  })),
        AppMessage::SwitchToSearchHandler => Some(Handler::Search(SearchHandler {  })),
        AppMessage::SwitchToFuzzyFindHandler => Some(Handler::FuzzyFind(FuzzyFindHandler {  })),
        _ => None,
    }
}

/// Title of the search bar under a handler.
pub open spec fn bar_title(handler: Handler) -> Seq<char> {
    match handler {
        Handler::Explore(_) => "Search (Press '/' to search, 'f' for fuzzy find)"@,
        Handler::Search(_) => "\u{1f50d} Search Mode (Active)"@,
        Handler::FuzzyFind(_) => "\u{1f50d} Fuzzy Find Mode (Active) - ESC to exit"@,
    }
}

/// Text of the search bar under a handler: the query while one is edited, a
/// hint otherwise.
pub open spec fn bar_text(handler: Handler, v: ModelView) -> Seq<char> {
    match handler {
        Handler::Explore(_) => "Press '/' to search or 'f' for fuzzy find..."@,
        Handler::Search(_) => if v.query_text.len() == 0 {
            "Type to search..."@
        } else {
            v.query_text
        },
        Handler::FuzzyFind(_) => if v.query_text.len() == 0 {
            "Type to fuzzy search files..."@
        } else {
            v.query_text
        },
    }
}

impl Handler {
    /// The title of the search bar.
    pub fn search_bar_title(&self) -> (title: &'static str)
        ensures
            title@ == bar_title(*self),
    {
        match self {
            Handler::Explore(_) => "Search (Press '/' to search, 'f' for fuzzy find)",
            Handler::Search(_) => "\u{1f50d} Search Mode (Active)",
            Handler::FuzzyFind(_) => "\u{1f50d} Fuzzy Find Mode (Active) - ESC to exit",
        }
    }

    /// The text of the search bar.
    pub fn search_bar_text<'a>(&self, model: &'a AppModel) -> (text: &'a str)
        ensures
            text@ == bar_text(*self, model@),
    {
        match self {
            Handler::Explore(_) => "Press '/' to search or 'f' for fuzzy find...",
            Handler::Search(_) => {
                if model.query_text.as_str().is_empty() {
                    "Type to search..."
                } else {
                    model.query_text.as_str()
                }
            },
            Handler::FuzzyFind(_) => {
                if model.query_text.as_str().is_empty() {
                    "Type to fuzzy search files..."
                } else {
                    model.query_text.as_str()
                }
            },
        }
    }

    pub fn new_explore_handler() -> (r: Self)
        ensures
            r == Handler::Explore(ExploreHandler {  }),
    {
        Handler::Explore(ExploreHandler::new())
    }

    pub fn new_search_handler() -> (r: Self)
        ensures
            r == Handler::Search(SearchHandler {  }),
    {
        Handler::Search(SearchHandler::new())
    }

    pub fn new_fuzzy_find_handler() -> (r: Self)
        ensures
            r == Handler::FuzzyFind(FuzzyFindHandler {  }),
    {
        Handler::FuzzyFind(FuzzyFindHandler::new())
    }

    /// Hands a key press to the handler of the active mode. The handler
    /// itself stays as it is: modes change by `switch_to` alone.
    pub fn handle_key(&mut self, key: KeyEvent, model: &mut AppModel) -> (r: Option<AppMessage>)
        ensures
            *final(self) == *old(self),
            final(model)@ == handled_model(*old(self), old(model)@, key),
            r == handled_message(*old(self), old(model)@, key),
            old(model).wf() ==> final(model).wf(),
    {
        match self {
            Handler::Explore(explore_handler) => explore_handler.handle_key(key, model),
            Handler::Search(search_handler) => search_handler.handle_key(key, model),
            Handler::FuzzyFind(fuzzy_find_handler) => fuzzy_find_handler.handle_key(key, model),
        }
    }

    /// Replaces the handler by the one that the message names. Any other
    /// message is refused and changes nothing. The model is not touched.
    pub fn switch_to(&mut self, message: &AppMessage, _model: &mut AppModel) -> (r: Result<
        (),
        String,
    >)
        ensures
            *final(_model) == *old(_model),
            match switch_target(*message) {
                Some(handler) => r is Ok && *final(self) == handler,
                None => *final(self) == *old(self) && (r matches Err(text) && text@
                    == "Invalid switch message"@),
            },
    {
        match message {
            AppMessage::SwitchToExploreHandler => {
                *self = Handler::new_explore_handler();
                Ok(())
            },
            AppMessage::SwitchToExploreHandlerKeepQuery => {
                *self = Handler::new_explore_handler();
                Ok(())
            },
            AppMessage::SwitchToSearchHandler => {
                *self = Handler::new_search_handler();
                Ok(())
            },
            AppMessage::SwitchToFuzzyFindHandler => {
                *self = Handler::new_fuzzy_find_handler();
                Ok(())
            },
            _ => Err(String::from_str("Invalid switch message")),
        }
    }

    /// The message that follows a move to another directory. A refusal is
    /// shown to the user; after a jump from a fuzzy match the browser goes
    /// back to Explore.
    pub fn after_navigation(&self, outcome: &Result<(), ClazyfilerError>) -> (r: Option<AppMessage>)
        ensures
            match (*self, *outcome) {
                (Handler::FuzzyFind(_), Ok(_)) => r == Some(AppMessage::SwitchToExploreHandler),
                (Handler::FuzzyFind(_), Err(e)) => r matches Some(AppMessage::Error(text)) && text@
                    == "Failed to navigate to directory: "@ + e.message_chars(),
                (_, Ok(_)) => r is None,
                (_, Err(e)) => r matches Some(AppMessage::Error(text)) && text@
                    == "Navigation error: "@ + e.message_chars(),
            },
    {
        match outcome {
            Ok(_) => match self {
                Handler::FuzzyFind(_) => Some(AppMessage::SwitchToExploreHandler),
                _ => None,
            },
            Err(e) => {
                let mut text = match self {
                    Handler::FuzzyFind(_) => String::from_str("Failed to navigate to directory: "),
                    _ => String::from_str("Navigation error: "),
                };
                let reason = e.message();
                text.append(reason.as_str());
                Some(AppMessage::Error(text))
            },
        }
    }
}

} // verus!
