//! The shape of a key handler on the view-centred state.

use vstd::prelude::*;
use crate::key::KeyEvent;
use crate::messages::AppMessage;
use crate::state::app_state::AppState;

verus! {

/// A handler of key presses that works on the state directly and sends
/// messages to the host for what it cannot do itself.
pub trait KeyHandler {
    fn handle_key(&mut self, key: KeyEvent, state: &mut AppState) -> Option<AppMessage>;
}

} // verus!
