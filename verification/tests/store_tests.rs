use clazyfiler::config::{Config, ExternalCommands, GeneralConfig, UiConfig};
use clazyfiler::dispatcher::{Dispatcher, ModeManager, ModeType, StoreAction};
use clazyfiler::store::{FileEntry, Store};

fn entry(name: &str, is_dir: bool) -> FileEntry {
    FileEntry {
        name: name.to_string(),
        path: format!("/data/{}", name),
        size: 7,
        is_dir,
        modified: None,
    }
}

fn unsorted() -> Vec<FileEntry> {
    vec![
        entry("beta.txt", false),
        entry("alpha", true),
        entry("Zeta.md", false),
        entry("gamma.txt", false),
    ]
}

fn store() -> Store {
    Store::new("/data".to_string(), Config::with_editor(None), Ok(unsorted())).unwrap()
}

fn names(store: &Store) -> Vec<String> {
    store.state.files.iter().map(|f| f.name.clone()).collect()
}

fn selected(store: &Store) -> Option<String> {
    store.get_selected_file().map(|f| f.name.clone())
}

#[test]
fn store_lists_directories_first_then_by_name_without_case() {
    let s = store();
    assert_eq!(names(&s), vec!["alpha", "beta.txt", "gamma.txt", "Zeta.md"]);
    assert_eq!(s.state.current_dir, "/data");
    assert_eq!(s.state.selected_index, 0);
    assert!(!s.state.search_mode);
    assert_eq!(s.state.search_query, "");
    assert!(s.state.filtered_files.is_empty());
}

#[test]
fn store_puts_a_directory_before_a_file_of_a_lower_name() {
    let s = Store::new(
        "/data".to_string(),
        Config::with_editor(None),
        Ok(vec![entry("a.txt", false), entry("zdir", true), entry("B.txt", false)]),
    )
    .unwrap();
    assert_eq!(names(&s), vec!["zdir", "a.txt", "B.txt"]);
}

#[test]
fn store_hands_back_a_failed_first_read() {
    let r = Store::new(
        "/data".to_string(),
        Config::with_editor(None),
        Err("denied".to_string()),
    );
    assert_eq!(r.err(), Some("denied".to_string()));
}

#[test]
fn move_selection_stays_between_first_and_last() {
    let mut s = store();
    s.move_selection(1);
    assert_eq!(s.state.selected_index, 1);
    s.move_selection(10);
    assert_eq!(s.state.selected_index, 3);
    s.move_selection(-2);
    assert_eq!(s.state.selected_index, 1);
    s.move_selection(-5);
    assert_eq!(s.state.selected_index, 0);
    s.move_selection(isize::MAX);
    assert_eq!(s.state.selected_index, 3);
    s.move_selection(isize::MIN);
    assert_eq!(s.state.selected_index, 0);
    s.move_selection(0);
    assert_eq!(s.state.selected_index, 0);
}

#[test]
fn entering_the_search_shows_every_file() {
    let mut s = store();
    s.move_selection(2);
    s.enter_search_mode();
    assert!(s.state.search_mode);
    assert_eq!(s.state.search_query, "");
    assert_eq!(s.state.filtered_files, vec![0, 1, 2, 3]);
    assert_eq!(s.state.selected_index, 0);
    assert_eq!(selected(&s), Some("alpha".to_string()));
    let mut empty = Store::new("/e".to_string(), Config::with_editor(None), Ok(Vec::new())).unwrap();
    empty.enter_search_mode();
    assert!(empty.state.filtered_files.is_empty());
    assert_eq!(selected(&empty), None);
}

#[test]
fn move_selection_among_the_matches() {
    let mut s = store();
    s.enter_search_mode();
    s.move_selection(1);
    assert_eq!(s.state.selected_index, 1);
    s.handle_search_input("txt".to_string());
    assert_eq!(s.state.filtered_files, vec![1, 2]);
    assert_eq!(s.state.selected_index, 0);
    s.move_selection(5);
    assert_eq!(s.state.selected_index, 1);
    assert_eq!(selected(&s), Some("gamma.txt".to_string()));
    s.handle_search_input("zzz".to_string());
    assert!(s.state.filtered_files.is_empty());
    s.move_selection(1);
    assert_eq!(s.state.selected_index, 0);
    assert_eq!(selected(&s), None);
}

#[test]
fn search_input_appends_or_removes() {
    let mut s = store();
    s.enter_search_mode();
    s.handle_search_input("ET".to_string());
    assert_eq!(s.state.search_query, "ET");
    assert_eq!(s.state.filtered_files, vec![1, 3]);
    s.move_selection(1);
    s.handle_search_input("a".to_string());
    assert_eq!(s.state.search_query, "ETa");
    assert_eq!(s.state.filtered_files, vec![1, 3]);
    assert_eq!(s.state.selected_index, 0);
    s.handle_search_input("".to_string());
    s.handle_search_input("".to_string());
    assert_eq!(s.state.search_query, "E");
    s.handle_search_input("".to_string());
    assert_eq!(s.state.search_query, "");
    // The empty query shows every file.
    assert_eq!(s.state.filtered_files, vec![0, 1, 2, 3]);
    s.handle_search_input("".to_string());
    assert_eq!(s.state.search_query, "");
}

#[test]
fn leaving_the_search_keeps_the_cursor_in_reach() {
    let mut s = store();
    s.move_selection(3);
    s.enter_search_mode();
    assert_eq!(s.state.selected_index, 0);
    s.handle_search_input("a".to_string());
    s.move_selection(2);
    assert_eq!(s.state.selected_index, 2);
    s.exit_search_mode();
    assert!(!s.state.search_mode);
    assert_eq!(s.state.search_query, "");
    assert!(s.state.filtered_files.is_empty());
    assert_eq!(s.state.selected_index, 2);
    assert_eq!(selected(&s), Some("gamma.txt".to_string()));
}

#[test]
fn selecting_a_match_ends_the_search_on_that_file() {
    let mut s = store();
    s.move_selection(1);
    s.select_first_match();
    assert_eq!(s.state.selected_index, 1);
    s.enter_search_mode();
    s.handle_search_input("zzz".to_string());
    s.select_first_match();
    assert!(s.state.search_mode);
    s.handle_search_input("".to_string());
    s.handle_search_input("".to_string());
    s.handle_search_input("".to_string());
    s.handle_search_input("gam".to_string());
    assert_eq!(s.state.filtered_files, vec![2]);
    s.select_first_match();
    assert!(!s.state.search_mode);
    assert_eq!(s.state.search_query, "");
    assert!(s.state.filtered_files.is_empty());
    assert_eq!(s.state.selected_index, 2);
    assert_eq!(selected(&s), Some("gamma.txt".to_string()));
}

#[test]
fn entering_a_directory_of_the_store() {
    let mut s = store();
    s.move_selection(1);
    assert_eq!(
        s.enter_directory(Ok(()), Ok(Vec::new())),
        Err("Selected item is not a directory".to_string())
    );
    s.move_selection(-1);
    assert_eq!(
        s.enter_directory(Err("no access".to_string()), Ok(Vec::new())),
        Err("Failed to enter directory: no access".to_string())
    );
    assert_eq!(
        s.enter_directory(Ok(()), Err("unreadable".to_string())),
        Err("Failed to load directory contents: unreadable".to_string())
    );
    assert_eq!(s.state.current_dir, "/data");
    assert_eq!(s.state.selected_index, 0);
    assert_eq!(names(&s).len(), 4);
    assert_eq!(
        s.enter_directory(Ok(()), Ok(vec![entry("b", false), entry("a", false)])),
        Ok(())
    );
    assert_eq!(s.state.current_dir, "/data/alpha");
    assert_eq!(names(&s), vec!["a", "b"]);
    assert_eq!(s.state.selected_index, 0);
    let mut empty = Store::new("/e".to_string(), Config::with_editor(None), Ok(Vec::new())).unwrap();
    assert_eq!(
        empty.enter_directory(Ok(()), Ok(Vec::new())),
        Err("No file selected".to_string())
    );
}

#[test]
fn going_back_from_the_store() {
    let mut s = store();
    assert_eq!(
        s.go_back(Err("x".to_string()), Ok(Vec::new())),
        Err("Failed to go back: x".to_string())
    );
    assert_eq!(
        s.go_back(Ok(()), Err("y".to_string())),
        Err("Failed to load parent directory: y".to_string())
    );
    assert_eq!(s.state.current_dir, "/data");
    assert_eq!(names(&s).len(), 4);
    s.enter_search_mode();
    s.handle_search_input("a".to_string());
    assert_eq!(s.go_back(Ok(()), Ok(vec![entry("data", true)])), Ok(()));
    assert_eq!(s.state.current_dir, "/");
    assert_eq!(names(&s), vec!["data"]);
    assert!(!s.state.search_mode);
    assert_eq!(s.state.search_query, "");
    assert!(s.state.filtered_files.is_empty());
    assert_eq!(
        s.go_back(Ok(()), Ok(Vec::new())),
        Err("Already at the root directory".to_string())
    );
    assert_eq!(s.state.current_dir, "/");
    assert_eq!(names(&s), vec!["data"]);
}

#[test]
fn loading_files_resets_cursor_and_search() {
    let mut s = store();
    s.move_selection(2);
    assert_eq!(s.load_files(Ok(unsorted())), Ok(()));
    assert_eq!(s.state.selected_index, 0);
    assert_eq!(names(&s), vec!["alpha", "beta.txt", "gamma.txt", "Zeta.md"]);
    assert_eq!(s.load_files(Ok(unsorted())), Ok(()));
    assert_eq!(names(&s), vec!["alpha", "beta.txt", "gamma.txt", "Zeta.md"]);
    s.move_selection(2);
    s.enter_search_mode();
    s.handle_search_input("a".to_string());
    s.move_selection(1);
    // A failed read changes nothing.
    assert_eq!(s.load_files(Err("gone".to_string())), Err("gone".to_string()));
    assert_eq!(names(&s), vec!["alpha", "beta.txt", "gamma.txt", "Zeta.md"]);
    assert!(s.state.search_mode);
    assert_eq!(s.state.search_query, "a");
    assert_eq!(s.state.selected_index, 1);
    assert_eq!(s.load_files(Ok(Vec::new())), Ok(()));
    assert!(s.state.files.is_empty());
    assert!(!s.state.search_mode);
    assert_eq!(s.state.search_query, "");
    assert_eq!(selected(&s), None);
}

#[test]
fn default_configuration() {
    let c = Config::with_editor(None);
    let bindings: Vec<(&str, &str)> = c
        .keymaps
        .iter()
        .map(|(k, a)| (k.as_str(), a.as_str()))
        .collect();
    assert_eq!(
        bindings,
        vec![
            ("q", "quit"),
            ("k", "up"),
            ("Up", "up"),
            ("j", "down"),
            ("Down", "down"),
            ("h", "back"),
            ("Left", "back"),
            ("l", "select"),
            ("Right", "select"),
            ("Enter", "select"),
            ("Escape", "back"),
            ("r", "refresh"),
            ("F5", "refresh"),
        ]
    );
    assert_eq!(c.ui.panel_width_ratio, 50);
    assert!(c.ui.show_borders);
    assert!(!c.ui.show_hidden_files);
    assert_eq!(c.ui.file_list_margin, 1);
    assert_eq!(c.external_commands.fuzzy_finder, "fzf");
    assert_eq!(c.external_commands.editor, "vi");
    assert_eq!(c.external_commands.file_manager, "xdg-open");
    assert_eq!(c.general.default_directory, "~");
    let with = Config::with_editor(Some("nano".to_string()));
    assert_eq!(with.external_commands.editor, "nano");
    assert_eq!(ExternalCommands::with_editor(Some("hx".to_string())).editor, "hx");
    assert_eq!(UiConfig::default().panel_width_ratio, 50);
    assert_eq!(GeneralConfig::default().default_directory, "~");
}

#[test]
fn dispatcher_routes_actions_to_the_store() {
    let mut d = Dispatcher::new("/data".to_string(), Config::with_editor(None), Ok(unsorted()))
        .unwrap();
    assert_eq!(d.get_mode_manager().current, ModeType::Explore);
    let idle = || (Ok(()), Ok(Vec::new()));
    let (c, e) = idle();
    assert_eq!(d.dispatch(StoreAction::MoveSelection(2), c, e), Ok(()));
    assert_eq!(d.get_store().state.selected_index, 2);
    let (c, e) = idle();
    assert_eq!(d.dispatch(StoreAction::Quit, c, e), Ok(()));
    let (c, e) = idle();
    assert_eq!(d.dispatch(StoreAction::EnterSearchMode, c, e), Ok(()));
    assert_eq!(d.get_mode_manager().current, ModeType::Search);
    assert!(d.get_store().state.search_mode);
    assert_eq!(d.get_store().state.filtered_files, vec![0, 1, 2, 3]);
    let (c, e) = idle();
    assert_eq!(
        d.dispatch(StoreAction::UpdateSearchQuery("zeta".to_string()), c, e),
        Ok(())
    );
    assert_eq!(d.get_store().state.filtered_files, vec![3]);
    let (c, e) = idle();
    assert_eq!(d.dispatch(StoreAction::SearchSelectFirst, c, e), Ok(()));
    assert_eq!(d.get_store().state.selected_index, 3);
    assert!(!d.get_store().state.search_mode);
    let (c, e) = idle();
    assert_eq!(d.dispatch(StoreAction::ExitSearchMode, c, e), Ok(()));
    assert_eq!(d.get_mode_manager().current, ModeType::Explore);
    let (c, e) = idle();
    assert_eq!(
        d.dispatch(StoreAction::EnterDirectory, c, e),
        Err("Selected item is not a directory".to_string())
    );
    assert_eq!(
        d.dispatch(StoreAction::Back, Ok(()), Ok(vec![entry("data", true)])),
        Ok(())
    );
    assert_eq!(d.get_store().state.current_dir, "/");
    let (c, e) = idle();
    assert_eq!(
        d.dispatch(StoreAction::Back, c, e),
        Err("Already at the root directory".to_string())
    );
    assert_eq!(
        d.dispatch(StoreAction::EnterDirectory, Ok(()), Ok(unsorted())),
        Ok(())
    );
    assert_eq!(d.get_store().state.current_dir, "/data/data");
    assert_eq!(
        d.dispatch(
            StoreAction::LoadDirectory("/tmp".to_string()),
            Err("no".to_string()),
            Ok(Vec::new())
        ),
        Err("Failed to change directory: no".to_string())
    );
    assert_eq!(d.get_store().state.current_dir, "/data/data");
    assert_eq!(
        d.dispatch(
            StoreAction::LoadDirectory("/tmp".to_string()),
            Ok(()),
            Err("bad".to_string())
        ),
        Err("Failed to load directory: bad".to_string())
    );
    assert_eq!(d.get_store().state.current_dir, "/data/data");
    assert_eq!(d.get_store().state.files.len(), 4);
    assert_eq!(
        d.dispatch(
            StoreAction::LoadDirectory("/data".to_string()),
            Ok(()),
            Ok(unsorted())
        ),
        Ok(())
    );
    assert_eq!(d.get_store().state.files.len(), 4);
    assert_eq!(d.get_store().state.current_dir, "/data");
    assert_eq!(
        d.dispatch(StoreAction::Refresh, Ok(()), Err("io".to_string())),
        Err("Failed to refresh: io".to_string())
    );
    assert_eq!(d.get_store().state.files.len(), 4);
    assert_eq!(
        d.dispatch(StoreAction::Refresh, Ok(()), Ok(unsorted())),
        Ok(())
    );
    let listed: Vec<&str> = d
        .get_store()
        .state
        .files
        .iter()
        .map(|f| f.name.as_str())
        .collect();
    assert_eq!(listed, vec!["alpha", "beta.txt", "gamma.txt", "Zeta.md"]);
}

#[test]
fn mode_manager_switches_the_search() {
    let mut s = store();
    let mut m = ModeManager::new();
    assert_eq!(m.current, ModeType::Explore);
    m.transition_to(ModeType::Search, &mut s);
    assert_eq!(m.current, ModeType::Search);
    assert!(s.state.search_mode);
    m.transition_to(ModeType::Explore, &mut s);
    assert_eq!(m.current, ModeType::Explore);
    assert!(!s.state.search_mode);
}
