use clazyfiler::app::{handle_key, process_message, start_fuzzy_find};
use clazyfiler::errors::ClazyfilerError;
use clazyfiler::handlers::Handler;
use clazyfiler::key::{is_ctrl_c, KeyCode, KeyEvent, KeyModifiers};
use clazyfiler::messages::AppMessage;
use clazyfiler::model::{AppMode, AppModel, FileEntry};

fn entry(name: &str, path: &str, is_directory: bool) -> FileEntry {
    FileEntry {
        name: name.to_string(),
        path: path.to_string(),
        is_directory,
        size: if is_directory { None } else { Some(10) },
    }
}

fn listing() -> Vec<FileEntry> {
    vec![
        entry("dirA", "/home/dirA", true),
        entry("file1.txt", "/home/file1.txt", false),
        entry("file2.txt", "/home/file2.txt", false),
    ]
}

fn model() -> AppModel {
    AppModel::new("/home".to_string(), Ok(listing())).unwrap()
}

fn plain(code: KeyCode) -> KeyEvent {
    KeyEvent::new(code, KeyModifiers::Plain)
}

fn ctrl(c: char) -> KeyEvent {
    KeyEvent::new(KeyCode::Char(c), KeyModifiers::Control)
}

fn names(model: &AppModel) -> Vec<String> {
    model.files.iter().map(|f| f.name.clone()).collect()
}

/// Presses a key and carries out the message as far as it needs no outside work.
fn press(handler: &mut Handler, model: &mut AppModel, key: KeyEvent) -> Option<AppMessage> {
    match handler.handle_key(key, model) {
        Some(message) => process_message(handler, model, message),
        None => None,
    }
}

#[test]
fn control_c_is_recognised() {
    assert!(is_ctrl_c(&ctrl('c')));
    assert!(!is_ctrl_c(&plain(KeyCode::Char('c'))));
    assert!(!is_ctrl_c(&ctrl('d')));
    assert!(!is_ctrl_c(&KeyEvent::new(KeyCode::Char('c'), KeyModifiers::Other)));
    assert!(!is_ctrl_c(&KeyEvent::new(KeyCode::Enter, KeyModifiers::Control)));
}

#[test]
fn explore_keys_move_the_cursor() {
    let mut h = Handler::new_explore_handler();
    let mut m = model();
    assert_eq!(h.handle_key(plain(KeyCode::Char('j')), &mut m), None);
    assert_eq!(m.selected_index, 1);
    assert_eq!(h.handle_key(plain(KeyCode::Down), &mut m), None);
    assert_eq!(m.selected_index, 2);
    assert_eq!(h.handle_key(plain(KeyCode::Down), &mut m), None);
    assert_eq!(m.selected_index, 2);
    assert_eq!(h.handle_key(plain(KeyCode::Char('k')), &mut m), None);
    assert_eq!(h.handle_key(plain(KeyCode::Up), &mut m), None);
    assert_eq!(m.selected_index, 0);
    assert_eq!(h.handle_key(plain(KeyCode::Up), &mut m), None);
    assert_eq!(m.selected_index, 0);
}

#[test]
fn explore_keys_ask_for_navigation() {
    let mut h = Handler::new_explore_handler();
    let mut m = model();
    for key in [KeyCode::Char('h'), KeyCode::Left, KeyCode::Esc] {
        assert_eq!(h.handle_key(plain(key), &mut m), Some(AppMessage::GoToParent));
    }
    for key in [KeyCode::Char('l'), KeyCode::Right, KeyCode::Enter] {
        assert_eq!(
            h.handle_key(plain(key), &mut m),
            Some(AppMessage::EnterDirectory("/home/dirA".to_string()))
        );
    }
    m.move_selection_down();
    for key in [KeyCode::Char('l'), KeyCode::Right, KeyCode::Enter] {
        assert_eq!(h.handle_key(plain(key), &mut m), Some(AppMessage::OpenFile));
    }
    for key in [KeyCode::Char('r'), KeyCode::F(5)] {
        assert_eq!(h.handle_key(plain(key), &mut m), Some(AppMessage::Refresh));
    }
    assert_eq!(h.handle_key(plain(KeyCode::F(4)), &mut m), None);
    assert_eq!(
        h.handle_key(plain(KeyCode::Char('/')), &mut m),
        Some(AppMessage::SwitchToSearchHandler)
    );
    assert_eq!(
        h.handle_key(plain(KeyCode::Char('f')), &mut m),
        Some(AppMessage::SwitchToFuzzyFindHandler)
    );
    assert_eq!(h.handle_key(plain(KeyCode::Char('q')), &mut m), Some(AppMessage::Quit));
    assert_eq!(h.handle_key(plain(KeyCode::Char('x')), &mut m), None);
    assert_eq!(h.handle_key(plain(KeyCode::Other), &mut m), None);
    assert_eq!(m.files, listing());
    assert_eq!(m.selected_index, 1);
}

#[test]
fn explore_select_without_entries_does_nothing() {
    let mut h = Handler::new_explore_handler();
    let mut m = AppModel::new("/empty".to_string(), Ok(Vec::new())).unwrap();
    assert_eq!(h.handle_key(plain(KeyCode::Enter), &mut m), None);
    assert_eq!(h.handle_key(plain(KeyCode::Down), &mut m), None);
    assert_eq!(m.selected_index, 0);
}

#[test]
fn search_scenario_from_slash_to_enter() {
    let mut h = Handler::new_explore_handler();
    let mut m = model();
    assert_eq!(press(&mut h, &mut m, plain(KeyCode::Char('/'))), None);
    assert!(matches!(h, Handler::Search(_)));
    assert_eq!(m.mode, AppMode::Search);
    for c in "file2".chars() {
        assert_eq!(press(&mut h, &mut m, plain(KeyCode::Char(c))), None);
    }
    assert_eq!(names(&m), vec!["file2.txt"]);
    assert_eq!(m.selected_index, 0);
    assert_eq!(press(&mut h, &mut m, plain(KeyCode::Enter)), None);
    assert!(matches!(h, Handler::Explore(_)));
    assert_eq!(m.mode, AppMode::Explore);
    // Enter keeps the query and the filtered listing.
    assert_eq!(m.query_text, "file2");
    assert_eq!(names(&m), vec!["file2.txt"]);
    assert!(m.selected_index < m.files.len());
    assert_eq!(
        m.get_selected_file().map(|f| f.path.as_str()),
        Some("/home/file2.txt")
    );
}

#[test]
fn escape_from_search_restores_the_listing() {
    let mut h = Handler::new_search_handler();
    let mut m = model();
    m.switch_to_search_mode();
    for c in "file2".chars() {
        press(&mut h, &mut m, plain(KeyCode::Char(c)));
    }
    assert_eq!(m.files.len(), 1);
    assert_eq!(press(&mut h, &mut m, plain(KeyCode::Esc)), None);
    assert!(matches!(h, Handler::Explore(_)));
    assert_eq!(m.mode, AppMode::Explore);
    assert_eq!(m.query_text, "");
    assert_eq!(m.files.len(), m.directory_files.len());
    assert_eq!(m.files, listing());
}

#[test]
fn control_c_leaves_search_like_escape() {
    let mut h = Handler::new_search_handler();
    let mut m = model();
    m.switch_to_search_mode();
    m.update_query("file".to_string());
    assert_eq!(
        h.handle_key(ctrl('c'), &mut m),
        Some(AppMessage::SwitchToExploreHandler)
    );
    assert_eq!(m.query_text, "");
}

#[test]
fn search_editing_keys() {
    let mut h = Handler::new_search_handler();
    let mut m = model();
    m.switch_to_search_mode();
    m.update_query("dir file".to_string());
    assert_eq!(h.handle_key(ctrl('w'), &mut m), None);
    assert_eq!(m.query_text, "dir");
    assert_eq!(h.handle_key(plain(KeyCode::Backspace), &mut m), None);
    assert_eq!(m.query_text, "di");
    assert_eq!(h.handle_key(ctrl('h'), &mut m), None);
    assert_eq!(m.query_text, "d");
    assert_eq!(h.handle_key(plain(KeyCode::Delete), &mut m), None);
    assert_eq!(m.query_text, "");
    for key in [ctrl('u'), ctrl('k'), ctrl('l')] {
        m.update_query("abc".to_string());
        assert_eq!(h.handle_key(key, &mut m), None);
        assert_eq!(m.query_text, "");
    }
    // In Search every character key edits the query, `q` too.
    assert_eq!(h.handle_key(plain(KeyCode::Char('q')), &mut m), None);
    assert_eq!(m.query_text, "q");
    for key in [ctrl('a'), ctrl('e'), ctrl('x'), plain(KeyCode::Left), plain(KeyCode::Other)] {
        assert_eq!(h.handle_key(key, &mut m), None);
        assert_eq!(m.query_text, "q");
    }
    assert_eq!(
        h.handle_key(KeyEvent::new(KeyCode::Char('a'), KeyModifiers::Other), &mut m),
        None
    );
    assert_eq!(m.query_text, "q");
}

#[test]
fn search_cursor_keys() {
    let mut h = Handler::new_search_handler();
    let mut m = model();
    m.switch_to_search_mode();
    assert_eq!(h.handle_key(plain(KeyCode::Down), &mut m), None);
    assert_eq!(m.selected_index, 1);
    assert_eq!(h.handle_key(ctrl('n'), &mut m), None);
    assert_eq!(m.selected_index, 2);
    assert_eq!(h.handle_key(ctrl('p'), &mut m), None);
    assert_eq!(m.selected_index, 1);
    assert_eq!(h.handle_key(plain(KeyCode::Up), &mut m), None);
    assert_eq!(m.selected_index, 0);
}

#[test]
fn fuzzy_find_keys() {
    let mut h = Handler::new_explore_handler();
    let mut m = model();
    assert_eq!(
        press(&mut h, &mut m, plain(KeyCode::Char('f'))),
        Some(AppMessage::SwitchToFuzzyFindHandler)
    );
    let found = vec![
        entry("dirA", "/home/dirA", true),
        entry("deep.txt", "/home/dirA/deep.txt", false),
        entry("file1.txt", "/home/file1.txt", false),
    ];
    assert_eq!(start_fuzzy_find(&mut h, &mut m, Ok(found.clone())), None);
    assert!(matches!(h, Handler::FuzzyFind(_)));
    assert_eq!(m.mode, AppMode::FuzzyFind);
    assert_eq!(m.files, found);
    assert_eq!(
        h.handle_key(plain(KeyCode::Enter), &mut m),
        Some(AppMessage::EnterDirectory("/home/dirA".to_string()))
    );
    for c in "deep".chars() {
        assert_eq!(h.handle_key(plain(KeyCode::Char(c)), &mut m), None);
    }
    assert_eq!(names(&m), vec!["deep.txt"]);
    assert_eq!(h.handle_key(plain(KeyCode::Enter), &mut m), Some(AppMessage::OpenFile));
    assert_eq!(h.handle_key(plain(KeyCode::Backspace), &mut m), None);
    assert_eq!(m.query_text, "dee");
    m.update_query("deep x".to_string());
    assert_eq!(h.handle_key(ctrl('w'), &mut m), None);
    assert_eq!(m.query_text, "deep");
    assert_eq!(h.handle_key(ctrl('u'), &mut m), None);
    assert_eq!(m.query_text, "");
    m.update_query("deep".to_string());
    assert_eq!(h.handle_key(ctrl('k'), &mut m), None);
    assert_eq!(m.query_text, "");
    assert_eq!(h.handle_key(plain(KeyCode::Down), &mut m), None);
    assert_eq!(h.handle_key(ctrl('n'), &mut m), None);
    assert_eq!(m.selected_index, 2);
    assert_eq!(h.handle_key(ctrl('p'), &mut m), None);
    assert_eq!(h.handle_key(plain(KeyCode::Up), &mut m), None);
    assert_eq!(m.selected_index, 0);
    // A query is being edited, so `q` is a character of it.
    assert_eq!(h.handle_key(plain(KeyCode::Char('q')), &mut m), None);
    assert_eq!(m.query_text, "q");
    assert_eq!(press(&mut h, &mut m, plain(KeyCode::Esc)), None);
    assert!(matches!(h, Handler::Explore(_)));
    assert_eq!(m.mode, AppMode::Explore);
    assert_eq!(m.query_text, "");
    assert!(m.all_files_cache.is_empty());
    assert_eq!(m.files, listing());
}

#[test]
fn failed_scan_is_reported_and_changes_nothing() {
    let mut h = Handler::new_explore_handler();
    let mut m = model();
    let failure = ClazyfilerError::file_system("read_dir", "/home", "gone");
    assert_eq!(
        start_fuzzy_find(&mut h, &mut m, Err(failure)),
        Some(AppMessage::Error(
            "Failed to start fuzzy find: File system error during 'read_dir' on '/home': gone"
                .to_string()
        ))
    );
    assert!(matches!(h, Handler::Explore(_)));
    assert_eq!(m.mode, AppMode::Explore);
}

#[test]
fn switch_to_replaces_the_handler() {
    let mut h = Handler::new_explore_handler();
    let mut m = model();
    assert_eq!(h.switch_to(&AppMessage::SwitchToSearchHandler, &mut m), Ok(()));
    assert!(matches!(h, Handler::Search(_)));
    assert_eq!(h.switch_to(&AppMessage::SwitchToFuzzyFindHandler, &mut m), Ok(()));
    assert!(matches!(h, Handler::FuzzyFind(_)));
    assert_eq!(
        h.switch_to(&AppMessage::SwitchToExploreHandlerKeepQuery, &mut m),
        Ok(())
    );
    assert!(matches!(h, Handler::Explore(_)));
    assert_eq!(h.switch_to(&AppMessage::SwitchToExploreHandler, &mut m), Ok(()));
    assert!(matches!(h, Handler::Explore(_)));
    assert_eq!(
        h.switch_to(&AppMessage::Quit, &mut m),
        Err("Invalid switch message".to_string())
    );
    assert_eq!(m.mode, AppMode::Explore);
}

#[test]
fn messages_that_need_the_host_are_handed_back() {
    let mut h = Handler::new_explore_handler();
    let mut m = model();
    for message in [
        AppMessage::Quit,
        AppMessage::OpenFile,
        AppMessage::GoToParent,
        AppMessage::Refresh,
        AppMessage::SwitchToFuzzyFindHandler,
        AppMessage::EnterDirectory("/x".to_string()),
        AppMessage::Error("e".to_string()),
    ] {
        let expected = match &message {
            AppMessage::EnterDirectory(p) => AppMessage::EnterDirectory(p.clone()),
            AppMessage::Error(e) => AppMessage::Error(e.clone()),
            AppMessage::Quit => AppMessage::Quit,
            AppMessage::OpenFile => AppMessage::OpenFile,
            AppMessage::GoToParent => AppMessage::GoToParent,
            AppMessage::Refresh => AppMessage::Refresh,
            _ => AppMessage::SwitchToFuzzyFindHandler,
        };
        assert_eq!(process_message(&mut h, &mut m, message), Some(expected));
    }
    assert!(matches!(h, Handler::Explore(_)));
}

#[test]
fn what_follows_a_navigation() {
    let explore = Handler::new_explore_handler();
    let fuzzy = Handler::new_fuzzy_find_handler();
    assert_eq!(explore.after_navigation(&Ok(())), None);
    assert_eq!(
        fuzzy.after_navigation(&Ok(())),
        Some(AppMessage::SwitchToExploreHandler)
    );
    let refusal = || ClazyfilerError::navigation("/", "Already at root directory");
    assert_eq!(
        explore.after_navigation(&Err(refusal())),
        Some(AppMessage::Error(
            "Navigation error: Navigation error for '/': Already at root directory".to_string()
        ))
    );
    assert_eq!(
        fuzzy.after_navigation(&Err(refusal())),
        Some(AppMessage::Error(
            "Failed to navigate to directory: Navigation error for '/': Already at root directory"
                .to_string()
        ))
    );
}

#[test]
fn search_bar_texts() {
    let mut m = model();
    let explore = Handler::new_explore_handler();
    let search = Handler::new_search_handler();
    let fuzzy = Handler::new_fuzzy_find_handler();
    assert_eq!(
        explore.search_bar_title(),
        "Search (Press '/' to search, 'f' for fuzzy find)"
    );
    assert_eq!(search.search_bar_title(), "\u{1f50d} Search Mode (Active)");
    assert_eq!(
        fuzzy.search_bar_title(),
        "\u{1f50d} Fuzzy Find Mode (Active) - ESC to exit"
    );
    assert_eq!(
        explore.search_bar_text(&m),
        "Press '/' to search or 'f' for fuzzy find..."
    );
    assert_eq!(search.search_bar_text(&m), "Type to search...");
    assert_eq!(fuzzy.search_bar_text(&m), "Type to fuzzy search files...");
    m.update_query("ab".to_string());
    assert_eq!(
        explore.search_bar_text(&m),
        "Press '/' to search or 'f' for fuzzy find..."
    );
    assert_eq!(search.search_bar_text(&m), "ab");
    assert_eq!(fuzzy.search_bar_text(&m), "ab");
}

#[test]
fn every_key_goes_to_the_handler_of_the_mode() {
    let mut h = Handler::new_explore_handler();
    let mut m = model();
    assert_eq!(handle_key(&mut h, &mut m, plain(KeyCode::Down)), None);
    assert_eq!(m.selected_index, 1);
    assert_eq!(
        handle_key(&mut h, &mut m, plain(KeyCode::Char('q'))),
        Some(AppMessage::Quit)
    );
    assert_eq!(
        handle_key(&mut h, &mut m, plain(KeyCode::Char('h'))),
        Some(AppMessage::GoToParent)
    );
    // Explore gives Control-C no meaning.
    assert_eq!(handle_key(&mut h, &mut m, ctrl('c')), None);
    assert!(matches!(h, Handler::Explore(_)));
    assert_eq!(handle_key(&mut h, &mut m, plain(KeyCode::Char('/'))), None);
    assert!(matches!(h, Handler::Search(_)));
    assert_eq!(m.mode, AppMode::Search);
    for c in "file".chars() {
        assert_eq!(handle_key(&mut h, &mut m, plain(KeyCode::Char(c))), None);
    }
    assert_eq!(m.files.len(), 2);
    // In Search, Control-C leaves for Explore and empties the query.
    assert_eq!(handle_key(&mut h, &mut m, ctrl('c')), None);
    assert!(matches!(h, Handler::Explore(_)));
    assert_eq!(m.mode, AppMode::Explore);
    assert_eq!(m.query_text, "");
    assert_eq!(m.files, listing());
}

#[test]
fn search_is_entered_with_an_empty_query() {
    let mut h = Handler::new_explore_handler();
    let mut m = model();
    handle_key(&mut h, &mut m, plain(KeyCode::Char('/')));
    for c in "file2".chars() {
        handle_key(&mut h, &mut m, plain(KeyCode::Char(c)));
    }
    assert_eq!(handle_key(&mut h, &mut m, plain(KeyCode::Enter)), None);
    assert_eq!(m.query_text, "file2");
    assert_eq!(names(&m), vec!["file2.txt"]);
    assert_eq!(handle_key(&mut h, &mut m, plain(KeyCode::Char('/'))), None);
    assert!(matches!(h, Handler::Search(_)));
    assert_eq!(m.query_text, "");
    assert_eq!(m.files, listing());
    handle_key(&mut h, &mut m, plain(KeyCode::Char('d')));
    handle_key(&mut h, &mut m, plain(KeyCode::Enter));
    assert_eq!(
        handle_key(&mut h, &mut m, plain(KeyCode::Char('f'))),
        Some(AppMessage::SwitchToFuzzyFindHandler)
    );
    let found = vec![entry("x.rs", "/home/dirA/x.rs", false), entry("dirA", "/home/dirA", true)];
    assert_eq!(start_fuzzy_find(&mut h, &mut m, Ok(found.clone())), None);
    assert_eq!(m.query_text, "");
    assert_eq!(m.files, found);
}
