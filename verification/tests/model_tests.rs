use clazyfiler::errors::ClazyfilerError;
use clazyfiler::model::{preview_title, AppMode, AppModel, FileEntry, FilesSource};

fn entry(name: &str, path: &str, is_directory: bool) -> FileEntry {
    FileEntry {
        name: name.to_string(),
        path: path.to_string(),
        is_directory,
        size: if is_directory { None } else { Some(10) },
    }
}

fn listing() -> Vec<FileEntry> {
    vec![
        entry("dirA", "/home/dirA", true),
        entry("file1.txt", "/home/file1.txt", false),
        entry("file2.txt", "/home/file2.txt", false),
    ]
}

fn model() -> AppModel {
    AppModel::new("/home".to_string(), Ok(listing())).unwrap()
}

fn names(model: &AppModel) -> Vec<String> {
    model.files.iter().map(|f| f.name.clone()).collect()
}

fn cursor_is_valid(model: &AppModel) -> bool {
    if model.files.is_empty() {
        model.selected_index == 0
    } else {
        model.selected_index < model.files.len()
    }
}

#[test]
fn new_model_shows_the_whole_listing() {
    let m = model();
    assert_eq!(m.current_dir, "/home");
    assert_eq!(m.query_text, "");
    assert_eq!(m.files, listing());
    assert_eq!(m.directory_files, listing());
    assert_eq!(m.selected_index, 0);
    assert_eq!(m.mode, AppMode::Explore);
    assert_eq!(m.files_source, FilesSource::CurrentDir);
    assert!(m.all_files_cache.is_empty());
    assert!(!m.is_indexing);
}

#[test]
fn new_model_hands_back_a_failed_read() {
    let failure = ClazyfilerError::file_system("read_dir", "/nowhere", "not found");
    let r = AppModel::new("/nowhere".to_string(), Err(failure));
    assert_eq!(
        r.err(),
        Some(ClazyfilerError::file_system("read_dir", "/nowhere", "not found"))
    );
}

#[test]
fn substring_filter_keeps_only_names_that_hold_the_query_as_one_piece() {
    let files = vec![
        entry("config.toml", "/p/config.toml", false),
        entry("README.md", "/p/README.md", false),
        entry("Cargo.toml", "/p/Cargo.toml", false),
    ];
    let mut m = AppModel::new("/p".to_string(), Ok(files)).unwrap();
    m.switch_to_search_mode();
    m.update_query("cfg".to_string());
    // "cfg" is a contiguous piece of none of the names.
    assert!(!names(&m).contains(&"Cargo.toml".to_string()));
    assert!(!names(&m).contains(&"README.md".to_string()));
    assert_eq!(names(&m), Vec::<String>::new());
    m.update_query("fig".to_string());
    assert_eq!(names(&m), vec!["config.toml"]);
    m.update_query("TOML".to_string());
    assert_eq!(names(&m), vec!["config.toml", "Cargo.toml"]);
    m.update_query("readme".to_string());
    assert_eq!(names(&m), vec!["README.md"]);
    m.update_query("".to_string());
    assert_eq!(names(&m), vec!["config.toml", "README.md", "Cargo.toml"]);
}

#[test]
fn query_edits_recompute_the_shown_files() {
    let mut m = model();
    m.switch_to_search_mode();
    assert_eq!(m.files_source, FilesSource::SearchResults);
    for c in "file".chars() {
        m.append_to_query(c);
    }
    assert_eq!(m.query_text, "file");
    assert_eq!(names(&m), vec!["file1.txt", "file2.txt"]);
    m.append_to_query('2');
    assert_eq!(names(&m), vec!["file2.txt"]);
    m.pop_from_query();
    assert_eq!(m.query_text, "file");
    assert_eq!(names(&m), vec!["file1.txt", "file2.txt"]);
    m.clear_query();
    assert_eq!(m.query_text, "");
    assert_eq!(names(&m).len(), 3);
    m.pop_from_query();
    assert_eq!(m.query_text, "");
}

#[test]
fn delete_word_and_delete_to_end() {
    let mut m = model();
    m.switch_to_search_mode();
    m.update_query("dir file".to_string());
    assert!(names(&m).is_empty());
    m.delete_word_backward();
    assert_eq!(m.query_text, "dir");
    assert_eq!(names(&m), vec!["dirA"]);
    m.delete_word_backward();
    assert_eq!(m.query_text, "");
    m.update_query("abc".to_string());
    m.delete_to_end();
    assert_eq!(m.query_text, "");
    assert_eq!(names(&m).len(), 3);
}

#[test]
fn cursor_moves_stay_inside_the_shown_files() {
    let mut m = model();
    m.move_selection_up();
    assert_eq!(m.selected_index, 0);
    m.move_selection_down();
    m.move_selection_down();
    assert_eq!(m.selected_index, 2);
    m.move_selection_down();
    assert_eq!(m.selected_index, 2);
    assert_eq!(m.get_selected_file().map(|f| f.name.as_str()), Some("file2.txt"));
    m.move_selection_up();
    assert_eq!(m.selected_index, 1);
}

#[test]
fn cursor_is_clamped_when_the_shown_files_shrink() {
    let mut m = model();
    m.move_selection_down();
    m.move_selection_down();
    m.switch_to_search_mode();
    m.update_query("file".to_string());
    assert_eq!(m.selected_index, 1);
    assert!(cursor_is_valid(&m));
    m.update_query("zzz".to_string());
    assert!(m.files.is_empty());
    assert_eq!(m.selected_index, 0);
    assert_eq!(m.get_selected_file(), None);
    m.move_selection_down();
    assert_eq!(m.selected_index, 0);
    assert!(cursor_is_valid(&m));
}

#[test]
fn change_directory_resets_query_cursor_and_mode() {
    let mut m = model();
    m.switch_to_search_mode();
    m.update_query("file".to_string());
    m.move_selection_down();
    let inside = vec![entry("inner.txt", "/home/dirA/inner.txt", false)];
    let r = m.change_directory("/home/dirA".to_string(), Ok(inside.clone()));
    assert_eq!(r, Ok(()));
    assert_eq!(m.current_dir, "/home/dirA");
    assert_eq!(m.query_text, "");
    assert_eq!(m.selected_index, 0);
    assert_eq!(m.mode, AppMode::Explore);
    assert_eq!(m.files_source, FilesSource::CurrentDir);
    assert_eq!(m.files, inside);
    assert_eq!(m.directory_files, inside);
}

#[test]
fn failed_change_of_directory_leaves_the_state_alone() {
    let mut m = model();
    m.move_selection_down();
    let failure = ClazyfilerError::file_system("read_dir", "/secret", "permission denied");
    let r = m.change_directory("/secret".to_string(), Err(failure));
    assert_eq!(
        r,
        Err(ClazyfilerError::file_system("read_dir", "/secret", "permission denied"))
    );
    assert_eq!(m.current_dir, "/home");
    assert_eq!(m.files, listing());
    assert_eq!(m.selected_index, 1);
}

#[test]
fn enter_selected_directory_resets_query_and_cursor() {
    let mut m = model();
    m.update_query("dir".to_string());
    assert_eq!(names(&m), vec!["dirA"]);
    let inside = vec![
        entry("a.txt", "/home/dirA/a.txt", false),
        entry("b.txt", "/home/dirA/b.txt", false),
    ];
    assert_eq!(m.enter_selected_directory(Ok(inside.clone())), Ok(()));
    assert_eq!(m.current_dir, "/home/dirA");
    assert_eq!(m.query_text, "");
    assert_eq!(m.selected_index, 0);
    assert_eq!(m.files, inside);
}

#[test]
fn entering_a_file_is_refused() {
    let mut m = model();
    m.move_selection_down();
    let r = m.enter_selected_directory(Ok(Vec::new()));
    assert_eq!(
        r,
        Err(ClazyfilerError::navigation(
            "/home/file1.txt",
            "Selected item is not a directory"
        ))
    );
    assert_eq!(m.current_dir, "/home");
    assert_eq!(m.files, listing());
    assert_eq!(m.selected_index, 1);
}

#[test]
fn entering_without_a_selection_is_refused() {
    let mut m = AppModel::new("/empty".to_string(), Ok(Vec::new())).unwrap();
    let r = m.enter_selected_directory(Ok(Vec::new()));
    assert_eq!(r, Err(ClazyfilerError::navigation("/empty", "No file selected")));
    assert_eq!(m.current_dir, "/empty");
}

#[test]
fn go_to_parent_moves_up_or_reports_the_root() {
    let mut m = model();
    let above = vec![entry("home", "/home", true)];
    let failure = ClazyfilerError::file_system("read_dir", "/", "denied");
    assert_eq!(
        m.go_to_parent(Err(failure)),
        Err(ClazyfilerError::file_system("read_dir", "/", "denied"))
    );
    assert_eq!(m.current_dir, "/home");
    assert_eq!(m.go_to_parent(Ok(above.clone())), Ok(()));
    assert_eq!(m.current_dir, "/");
    assert_eq!(m.files, above);
    let r = m.go_to_parent(Ok(Vec::new()));
    assert_eq!(
        r,
        Err(ClazyfilerError::navigation("/", "Already at root directory"))
    );
    assert_eq!(m.current_dir, "/");
    assert_eq!(m.files, above);
}

#[test]
fn fuzzy_mode_ranks_the_scanned_files() {
    let mut m = model();
    let found = vec![
        entry("main_helper.rs", "src/modes/main_helper.rs", false),
        entry("lib.rs", "src/lib.rs", false),
        entry("main.rs", "src/main.rs", false),
        entry("main.rs", "app/main.rs", false),
    ];
    assert_eq!(m.switch_to_fuzzy_find_mode(Ok(found.clone())), Ok(()));
    assert_eq!(m.mode, AppMode::FuzzyFind);
    assert_eq!(m.files_source, FilesSource::FuzzyResults);
    assert_eq!(m.files, found);
    assert_eq!(m.all_files_cache, found);
    m.update_query("main".to_string());
    let paths: Vec<&str> = m.files.iter().map(|f| f.path.as_str()).collect();
    // 95, 95 in scan order, then 91; "src/lib.rs" is rejected.
    assert_eq!(paths, vec!["src/main.rs", "app/main.rs", "src/modes/main_helper.rs"]);
    m.update_query("xyz123".to_string());
    assert!(m.files.is_empty());
    assert_eq!(m.selected_index, 0);
}

#[test]
fn failed_scan_changes_nothing() {
    let mut m = model();
    let failure = ClazyfilerError::file_system("read_dir", "/home", "gone");
    let r = m.switch_to_fuzzy_find_mode(Err(failure));
    assert_eq!(r, Err(ClazyfilerError::file_system("read_dir", "/home", "gone")));
    assert_eq!(m.mode, AppMode::Explore);
    assert_eq!(m.files, listing());
}

#[test]
fn leaving_for_explore_drops_query_and_scanned_files() {
    let mut m = model();
    m.switch_to_fuzzy_find_mode(Ok(vec![entry("x", "/home/dirA/x", false)]))
        .unwrap();
    m.update_query("x".to_string());
    m.switch_to_explore_mode();
    assert_eq!(m.mode, AppMode::Explore);
    assert_eq!(m.query_text, "");
    assert!(m.all_files_cache.is_empty());
    assert_eq!(m.files, listing());
    assert_eq!(m.files_source, FilesSource::CurrentDir);
}

#[test]
fn keeping_the_query_keeps_the_search_results() {
    let mut m = model();
    m.switch_to_search_mode();
    m.update_query("file2".to_string());
    m.switch_to_explore_mode_keep_query();
    assert_eq!(m.mode, AppMode::Explore);
    assert_eq!(m.query_text, "file2");
    assert_eq!(names(&m), vec!["file2.txt"]);
    assert_eq!(m.files_source, FilesSource::SearchResults);
}

#[test]
fn refresh_takes_the_new_listing_and_clamps_the_cursor() {
    let mut m = model();
    m.move_selection_down();
    m.move_selection_down();
    let shorter = vec![entry("dirA", "/home/dirA", true)];
    m.refresh_current_directory(Ok(shorter.clone()));
    assert_eq!(m.files, shorter);
    assert_eq!(m.selected_index, 0);
    m.refresh_current_directory(Ok(shorter.clone()));
    assert_eq!(m.files, shorter);
    assert_eq!(m.directory_files, shorter);
    assert_eq!(m.selected_index, 0);
    m.refresh_current_directory(Err(ClazyfilerError::file_system("read_dir", "/home", "gone")));
    assert_eq!(m.files, shorter);
}

#[test]
fn editor_opens_the_selected_file_only() {
    let mut m = model();
    assert_eq!(
        m.open_selected_file_with_editor(),
        Err(ClazyfilerError::editor(
            "editor",
            "Cannot open directory with editor"
        ))
    );
    m.move_selection_down();
    assert_eq!(
        m.open_selected_file_with_editor(),
        Ok(entry("file1.txt", "/home/file1.txt", false))
    );
    let empty = AppModel::new("/empty".to_string(), Ok(Vec::new())).unwrap();
    assert_eq!(
        empty.open_selected_file_with_editor(),
        Err(ClazyfilerError::editor("selection", "No file selected"))
    );
}

#[test]
fn file_content_or_the_reason_it_could_not_be_read() {
    let m = model();
    assert_eq!(m.get_file_content(Ok("hello".to_string())), "hello");
    let failure = ClazyfilerError::file_system("open", "/home/x", "denied");
    assert_eq!(
        m.get_file_content(Err(failure)),
        "\u{274c} Error reading file: File system error during 'open' on '/home/x': denied"
    );
}

#[test]
fn error_messages() {
    assert_eq!(
        ClazyfilerError::file_system("read", "/a", "boom").message(),
        "File system error during 'read' on '/a': boom"
    );
    assert_eq!(
        ClazyfilerError::editor("vim", "failed").message(),
        "Editor error with 'vim': failed"
    );
    assert_eq!(
        ClazyfilerError::terminal("draw", "failed").message(),
        "Terminal error during 'draw': failed"
    );
    assert_eq!(
        ClazyfilerError::config("bad").message(),
        "Configuration error: bad"
    );
    assert_eq!(
        ClazyfilerError::search("q", "bad").message(),
        "Search error for 'q': bad"
    );
    assert_eq!(
        ClazyfilerError::navigation("/a", "bad").message(),
        "Navigation error for '/a': bad"
    );
    assert_eq!(
        ClazyfilerError::content("/a", "bad").message(),
        "Content error for '/a': bad"
    );
}

#[test]
fn titles_of_the_file_list() {
    let mut m = model();
    assert_eq!(m.list_title(), "Files - /home");
    m.update_query("f".to_string());
    assert_eq!(m.list_title(), "Search - /home");
    m.clear_query();
    m.switch_to_search_mode();
    assert_eq!(m.list_title(), "Search - /home");
    let many: Vec<FileEntry> = (0..12).map(|i| entry("f", &format!("/home/{}", i), false)).collect();
    m.switch_to_fuzzy_find_mode(Ok(many)).unwrap();
    assert_eq!(m.list_title(), "\u{1f50d} Fuzzy Find - 12 total files");
    m.is_indexing = true;
    assert_eq!(m.list_title(), "\u{1f50d} Fuzzy Find - Indexing... (12 files)");
}

#[test]
fn highlighted_position() {
    let mut m = model();
    assert_eq!(m.highlighted(), Some(0));
    m.move_selection_down();
    assert_eq!(m.highlighted(), Some(1));
    m.update_query("zzz".to_string());
    assert_eq!(m.highlighted(), None);
}

#[test]
fn preview_titles() {
    assert_eq!(preview_title(&entry("dirA", "/home/dirA", true)), "\u{1f4c1} dirA");
    assert_eq!(preview_title(&entry("a.txt", "/home/a.txt", false)), "\u{1f4c4} a.txt");
}

#[test]
fn filters_of_the_model() {
    let m = model();
    let files = listing();
    assert_eq!(m.filter_files(&files, ""), files);
    assert_eq!(m.filter_files(&files, "E1"), files[1..2].to_vec());
    assert_eq!(m.fuzzy_filter_files(&files, ""), files);
    // "/home/file1.txt" and "/home/file2.txt" score the same and keep their order.
    assert_eq!(m.fuzzy_filter_files(&files, "hfile"), files[1..].to_vec());
    assert_eq!(m.fuzzy_filter_files(&files, "a/"), Vec::new());
    assert_eq!(m.fuzzy_match("/home/file1.txt", "hfile"), 10 + 10 + 11 + 12 + 13 - 2);
    assert_eq!(m.fuzzy_match("/home/dirA", "hfile"), 0);
}

#[test]
fn search_and_fuzzy_find_start_with_an_empty_query() {
    let mut m = model();
    m.switch_to_search_mode();
    m.update_query("file2".to_string());
    m.switch_to_explore_mode_keep_query();
    assert_eq!(m.query_text, "file2");
    m.switch_to_search_mode();
    assert_eq!(m.mode, AppMode::Search);
    assert_eq!(m.query_text, "");
    assert_eq!(m.files, listing());
    m.update_query("file2".to_string());
    m.switch_to_explore_mode_keep_query();
    let found = vec![
        entry("b.rs", "src/b.rs", false),
        entry("file2.txt", "src/file2.txt", false),
        entry("a.rs", "src/a.rs", false),
    ];
    assert_eq!(m.switch_to_fuzzy_find_mode(Ok(found.clone())), Ok(()));
    assert_eq!(m.mode, AppMode::FuzzyFind);
    assert_eq!(m.query_text, "");
    // The whole scan is shown, in scan order.
    assert_eq!(m.files, found);
    assert_eq!(m.all_files_cache, found);
    assert!(!m.is_indexing);
    assert!(cursor_is_valid(&m));
}

#[test]
fn refresh_for_the_mode_clamps_any_cursor() {
    let mut m = model();
    m.selected_index = 17;
    m.refresh_files_for_current_mode();
    assert_eq!(m.selected_index, 2);
    m.query_text = "zzz".to_string();
    m.refresh_files_for_current_mode();
    assert!(m.files.is_empty());
    assert_eq!(m.selected_index, 0);
    assert_eq!(m.query_text, "zzz");
    assert_eq!(m.directory_files, listing());
}

#[test]
fn empty_query_scores_one_hundred_for_every_path() {
    let m = model();
    assert_eq!(m.fuzzy_match("/home/file1.txt", ""), 100);
    assert_eq!(m.fuzzy_match("", ""), 100);
}
