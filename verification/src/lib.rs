//! The core of a terminal file browser: the state of the browser, the
//! filters that decide which files are shown, and the handlers that turn key
//! presses into changes of the state and into requests to the host.
//!
//! The library does no input or output. The host reads keys, directories and
//! files and hands the results in; the library says in its contracts what
//! each function makes of them.

pub mod actions;
pub mod app;
pub mod config;
pub mod cursor;
pub mod dispatcher;
pub mod errors;
pub mod fuzzy;
pub mod handlers;
pub mod key;
pub mod listing;
pub mod messages;
pub mod model;
pub mod modes;
pub mod services;
pub mod sorting;
pub mod state;
pub mod store;
pub mod text;
pub mod ui_helpers;
