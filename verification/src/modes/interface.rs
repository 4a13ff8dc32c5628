//! What a mode hands to the host after a key press.

use vstd::prelude::*;
use crate::actions::ModeSwitchAction;
use crate::key::KeyEvent;
use crate::state::AppState;

verus! {

/// A handler of key presses that works on the state directly and returns
/// what is left for the host to do.
pub trait KeyHandler {
    fn handle_key(&mut self, key: KeyEvent, state: &mut AppState) -> ModeResult;
}

/// What a key press asks of the host: to quit, to open the selected file, to
/// change the mode, or to show an error. At most one of them is set.
#[derive(Debug)]
pub struct ModeResult {
    pub quit: bool,
    pub open_file: bool,
    pub switch_mode: Option<ModeSwitchAction>,
    pub error: Option<String>,
}

impl Default for ModeResult {
    fn default() -> (r: Self)
        ensures
            !r.quit,
            !r.open_file,
            r.switch_mode is None,
            r.error is None,
    {
        ModeResult { quit: false, open_file: false, switch_mode: None, error: None }
    }
}

impl ModeResult {
    /// Nothing is asked.
    pub fn none() -> (r: Self)
        ensures
            !r.quit,
            !r.open_file,
            r.switch_mode is None,
            r.error is None,
    {
        ModeResult { quit: false, open_file: false, switch_mode: None, error: None }
    }

    pub fn quit() -> (r: Self)
        ensures
            r.quit,
            !r.open_file,
            r.switch_mode is None,
            r.error is None,
    {
        ModeResult { quit: true, open_file: false, switch_mode: None, error: None }
    }

    pub fn open_file() -> (r: Self)
        ensures
            !r.quit,
            r.open_file,
            r.switch_mode is None,
            r.error is None,
    {
        ModeResult { quit: false, open_file: true, switch_mode: None, error: None }
    }

    pub fn switch_mode(action: ModeSwitchAction) -> (r: Self)
        ensures
            !r.quit,
            !r.open_file,
            r.switch_mode == Some(action),
            r.error is None,
    {
        ModeResult { quit: false, open_file: false, switch_mode: Some(action), error: None }
    }

    pub fn error(message: String) -> (r: Self)
        ensures
            !r.quit,
            !r.open_file,
            r.switch_mode is None,
            r.error == Some(message),
    {
        ModeResult { quit: false, open_file: false, switch_mode: None, error: Some(message) }
    }
}

} // verus!
