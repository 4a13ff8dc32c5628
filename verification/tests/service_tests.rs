use clazyfiler::cursor::{clamp, selection, step_down, step_up};
use clazyfiler::errors::ClazyfilerError;
use clazyfiler::listing::{
    copy_all, directory_order, fuzzy_positions, index_range, matching_positions, pick,
    ranked_positions, search_positions, sort_listing,
};
use clazyfiler::model::FileEntry;
use clazyfiler::services::preview::{preview_of_directory, preview_of_text, split_lines};
use clazyfiler::services::{EditorService, FileService};
use clazyfiler::sorting::{key_less, sorted_order, text_less, SortKey};
use clazyfiler::text::{chars_are, decimal_string, same_chars};
use clazyfiler::ui_helpers::{guess_file_type, is_binary_content};

fn entry(name: &str, path: &str, is_directory: bool) -> FileEntry {
    FileEntry {
        name: name.to_string(),
        path: path.to_string(),
        is_directory,
        size: None,
    }
}

fn chars(text: &str) -> Vec<char> {
    text.chars().collect()
}

fn key(group: u32, text: &str) -> SortKey {
    SortKey { group, text: chars(text) }
}

fn mixed() -> Vec<FileEntry> {
    vec![
        entry("b.txt", "/w/b.txt", false),
        entry("Zdir", "/w/Zdir", true),
        entry("A.txt", "/w/A.txt", false),
        entry("adir", "/w/adir", true),
        entry("a.txt", "/w/a.txt", false),
    ]
}

#[test]
fn cursor_arithmetic() {
    assert_eq!(clamp(5, 3), 2);
    assert_eq!(clamp(3, 3), 2);
    assert_eq!(clamp(2, 3), 2);
    assert_eq!(clamp(0, 0), 0);
    assert_eq!(clamp(7, 0), 0);
    assert_eq!(step_up(0), 0);
    assert_eq!(step_up(4), 3);
    assert_eq!(step_down(0, 0), 0);
    assert_eq!(step_down(0, 1), 0);
    assert_eq!(step_down(0, 2), 1);
    assert_eq!(step_down(usize::MAX, usize::MAX), usize::MAX);
}

#[test]
fn decimal_numerals() {
    assert_eq!(decimal_string(0), "0");
    assert_eq!(decimal_string(7), "7");
    assert_eq!(decimal_string(10), "10");
    assert_eq!(decimal_string(1234567890), "1234567890");
    assert_eq!(decimal_string(u64::MAX), "18446744073709551615");
}

#[test]
fn comparing_characters() {
    assert!(same_chars(&chars("abc"), &chars("abc")));
    assert!(!same_chars(&chars("abc"), &chars("abd")));
    assert!(!same_chars(&chars("abc"), &chars("ab")));
    assert!(same_chars(&chars(""), &chars("")));
    assert!(chars_are(&chars("target"), "target"));
    assert!(!chars_are(&chars("targets"), "target"));
}

#[test]
fn texts_are_ordered_by_code_point() {
    assert!(text_less(&chars("a"), &chars("b")));
    assert!(!text_less(&chars("b"), &chars("a")));
    assert!(!text_less(&chars("a"), &chars("a")));
    assert!(text_less(&chars(""), &chars("a")));
    assert!(!text_less(&chars("a"), &chars("")));
    assert!(text_less(&chars("ab"), &chars("abc")));
    assert!(text_less(&chars("Z"), &chars("a")));
    assert!(text_less(&chars("abc"), &chars("abd")));
    assert!(text_less(&chars("z"), &chars("é")));
}

#[test]
fn keys_are_ordered_by_group_then_text() {
    assert!(key_less(&key(0, "z"), &key(1, "a")));
    assert!(!key_less(&key(1, "a"), &key(0, "z")));
    assert!(key_less(&key(1, "a"), &key(1, "b")));
    assert!(!key_less(&key(1, "a"), &key(1, "a")));
}

#[test]
fn sorting_is_stable() {
    let keys = vec![key(1, "b"), key(0, "x"), key(1, "a"), key(1, "b"), key(0, "x"), key(1, "a")];
    assert_eq!(sorted_order(&keys), vec![1, 4, 2, 5, 0, 3]);
    assert_eq!(sorted_order(&Vec::new()), Vec::<usize>::new());
    let descending = vec![key(0, "c"), key(0, "b"), key(0, "a")];
    assert_eq!(sorted_order(&descending), vec![2, 1, 0]);
}

#[test]
fn directory_order_of_a_listing() {
    assert_eq!(directory_order(&mixed()), vec![3, 1, 2, 4, 0]);
    let by_directory: Vec<String> = sort_listing(&mixed()).iter().map(|f| f.name.clone()).collect();
    assert_eq!(by_directory, vec!["adir", "Zdir", "A.txt", "a.txt", "b.txt"]);
    let again = sort_listing(&sort_listing(&mixed()));
    assert_eq!(again, sort_listing(&mixed()));
}

#[test]
fn positions_of_matches() {
    let files = mixed();
    assert_eq!(index_range(3), vec![0, 1, 2]);
    assert_eq!(index_range(0), Vec::<usize>::new());
    assert_eq!(matching_positions(&files, "DIR"), vec![1, 3]);
    assert_eq!(matching_positions(&files, "a.t"), vec![2, 4]);
    assert_eq!(search_positions(&files, ""), vec![0, 1, 2, 3, 4]);
    assert_eq!(search_positions(&files, "zzz"), Vec::<usize>::new());
    assert_eq!(pick(&files, &vec![4, 0]), vec![files[4].clone(), files[0].clone()]);
    assert_eq!(copy_all(&files), files);
}

#[test]
fn ranking_is_by_score_then_by_position() {
    let files = vec![
        entry("x", "a/b/c/main.rs", false),
        entry("x", "readme", false),
        entry("x", "main.rs", false),
        entry("x", "m/a/i/n", false),
        entry("x", "MAIN.rs", false),
    ];
    // Scores: 93, rejected, 96, 37, 96.
    assert_eq!(ranked_positions(&files, "main"), vec![2, 4, 0, 3]);
    assert_eq!(fuzzy_positions(&files, "main"), vec![2, 4, 0, 3]);
    assert_eq!(fuzzy_positions(&files, ""), vec![0, 1, 2, 3, 4]);
    assert_eq!(ranked_positions(&files, "xyz123"), Vec::<usize>::new());
    assert_eq!(ranked_positions(&files, ""), vec![0, 1, 2, 3, 4]);
}

#[test]
fn entries_have_a_size_only_as_regular_files() {
    let file = FileEntry::new("a".to_string(), "/a".to_string(), false, true, 12);
    assert_eq!(file.size, Some(12));
    assert!(!file.is_directory);
    let dir = FileEntry::new("d".to_string(), "/d".to_string(), true, false, 4096);
    assert_eq!(dir.size, None);
    assert!(dir.is_directory);
    let link = FileEntry::new("l".to_string(), "/l".to_string(), false, false, 7);
    assert_eq!(link.size, None);
    assert_eq!((link.name.as_str(), link.path.as_str()), ("l", "/l"));
    let old = clazyfiler::state::FileEntry::new(
        "o".to_string(),
        "/o".to_string(),
        false,
        true,
        3,
        Some(99),
    );
    assert_eq!((old.size, old.modified), (Some(3), Some(99)));
    let old_dir =
        clazyfiler::state::FileEntry::new("p".to_string(), "/p".to_string(), true, false, 3, None);
    assert_eq!((old_dir.size, old_dir.modified), (None, None));
}

#[test]
fn file_service_orders_what_was_read() {
    let service = FileService::new();
    let sorted = service.read_directory(Ok(mixed())).unwrap();
    let names: Vec<&str> = sorted.iter().map(|f| f.name.as_str()).collect();
    assert_eq!(names, vec!["adir", "Zdir", "A.txt", "a.txt", "b.txt"]);
    assert_eq!(service.read_directory(Ok(sorted.clone())), Ok(sorted));
    let failure = ClazyfilerError::file_system("read_dir", "/w", "denied");
    assert_eq!(
        service.read_directory(Err(failure)),
        Err(ClazyfilerError::file_system("read_dir", "/w", "denied"))
    );
}

#[test]
fn file_service_finds_the_parent() {
    let service = FileService::new();
    assert_eq!(service.get_parent_dir(""), None);
    assert_eq!(service.get_parent_dir("/"), None);
    assert_eq!(
        service.get_parent_dir("/home/user"),
        Some("/home".to_string())
    );
    assert_eq!(service.get_parent_dir("/home"), Some("/".to_string()));
}

#[test]
fn scan_leaves_out_hidden_and_build_directories() {
    let service = FileService::new();
    for name in [".git", ".cache", ".", "node_modules", "target", "build", "dist"] {
        assert!(!service.should_descend(name));
    }
    for name in ["src", "targets", "Target", "distro", "", "a.b", "node_modules2"] {
        assert!(service.should_descend(name));
    }
}

#[test]
fn preview_limits() {
    let service = FileService::new();
    assert!(!service.is_too_large(None));
    assert!(!service.is_too_large(Some(0)));
    assert!(!service.is_too_large(Some(1024 * 1024)));
    assert!(service.is_too_large(Some(1024 * 1024 + 1)));
    assert!(!service.is_binary(&b"plain text\r\n\twith tabs".to_vec()));
    assert!(!service.is_binary(&Vec::new()));
    assert!(service.is_binary(&vec![b'a', 0, b'b']));
    assert!(service.is_binary(&vec![b'a', 27]));
    assert!(service.is_binary(&vec![31]));
    assert!(!service.is_binary(&vec![32, 200, 255]));
}

#[test]
fn editor_opens_files_only() {
    let service = EditorService::new();
    assert_eq!(
        service.open_file(&entry("a.txt", "/w/a.txt", false)),
        Ok("/w/a.txt".to_string())
    );
    assert_eq!(
        service.open_file(&entry("dir", "/w/dir", true)),
        Err(ClazyfilerError::editor(
            "editor",
            "Cannot open directory with editor"
        ))
    );
}

#[test]
fn binary_content_by_sample() {
    assert!(!is_binary_content(b""));
    assert!(!is_binary_content(b"hello\n"));
    assert!(is_binary_content(&[b'a', 0]));
    // One control character in four bytes is not more than a quarter.
    assert!(!is_binary_content(&[1, b'a', b'b', b'c']));
    assert!(is_binary_content(&[1, 2, b'b', b'c']));
    assert!(is_binary_content(&[1]));
    // Only the first 1024 bytes are sampled for control characters.
    let mut long = vec![b'a'; 1024];
    long.extend(vec![1u8; 4096]);
    assert!(!is_binary_content(&long));
    long.push(0);
    assert!(is_binary_content(&long));
}

#[test]
fn file_types_by_extension() {
    assert_eq!(guess_file_type(None), "No extension");
    assert_eq!(guess_file_type(Some("rs")), "Rust source");
    assert_eq!(guess_file_type(Some("RS")), "Rust source");
    assert_eq!(guess_file_type(Some("py")), "Python script");
    assert_eq!(guess_file_type(Some("js")), "JavaScript");
    assert_eq!(guess_file_type(Some("ts")), "TypeScript");
    assert_eq!(guess_file_type(Some("html")), "HTML document");
    assert_eq!(guess_file_type(Some("css")), "CSS stylesheet");
    assert_eq!(guess_file_type(Some("json")), "JSON data");
    assert_eq!(guess_file_type(Some("toml")), "TOML config");
    assert_eq!(guess_file_type(Some("yaml")), "YAML config");
    assert_eq!(guess_file_type(Some("Yml")), "YAML config");
    assert_eq!(guess_file_type(Some("md")), "Markdown document");
    assert_eq!(guess_file_type(Some("txt")), "Text file");
    assert_eq!(guess_file_type(Some("log")), "Log file");
    for ext in ["png", "jpg", "JPEG", "gif", "bmp"] {
        assert_eq!(guess_file_type(Some(ext)), "Image file");
    }
    for ext in ["mp3", "wav", "flac"] {
        assert_eq!(guess_file_type(Some(ext)), "Audio file");
    }
    for ext in ["mp4", "avi", "mkv"] {
        assert_eq!(guess_file_type(Some(ext)), "Video file");
    }
    assert_eq!(guess_file_type(Some("pdf")), "PDF document");
    for ext in ["zip", "tar", "gz", "7z"] {
        assert_eq!(guess_file_type(Some(ext)), "Archive");
    }
    for ext in ["exe", "dll", "so"] {
        assert_eq!(guess_file_type(Some(ext)), "Executable");
    }
    assert_eq!(guess_file_type(Some("xyz")), "Unknown type");
    assert_eq!(guess_file_type(Some("")), "Unknown type");
}

#[test]
fn cursor_selection() {
    assert_eq!(selection(0, 0), None);
    assert_eq!(selection(0, 1), Some(0));
    assert_eq!(selection(2, 3), Some(2));
    assert_eq!(selection(3, 3), None);
}

#[test]
fn sorting_many_keys() {
    // 1000 keys in descending order with every text twice.
    let mut keys = Vec::new();
    for i in (0..500u32).rev() {
        keys.push(key(i % 3, &format!("{:04}", i)));
        keys.push(key(i % 3, &format!("{:04}", i)));
    }
    let order = sorted_order(&keys);
    assert_eq!(order.len(), 1000);
    let mut seen = vec![false; 1000];
    for &p in &order {
        assert!(!seen[p]);
        seen[p] = true;
    }
    for pair in order.windows(2) {
        let (a, b) = (&keys[pair[0]], &keys[pair[1]]);
        let before = (a.group, &a.text) < (b.group, &b.text);
        let same = a.group == b.group && a.text == b.text;
        assert!(before || (same && pair[0] < pair[1]));
    }
}

#[test]
fn ranking_many_files() {
    let files: Vec<FileEntry> = (0..300)
        .map(|i| {
            let depth = i % 7;
            let path = format!("{}main{}.rs", "d/".repeat(depth), i % 2);
            entry("f", &path, false)
        })
        .collect();
    let ranked = ranked_positions(&files, "main1");
    assert_eq!(ranked.len(), 150);
    for pair in ranked.windows(2) {
        let a = clazyfiler::fuzzy::fuzzy_match(&files[pair[0]].path, "main1");
        let b = clazyfiler::fuzzy::fuzzy_match(&files[pair[1]].path, "main1");
        assert!(a > b || (a == b && pair[0] < pair[1]));
    }
    assert!(ranked.iter().all(|&p| p % 2 == 1));
}

#[test]
fn parent_is_told_from_the_text_of_the_path() {
    let service = FileService::new();
    assert_eq!(service.get_parent_dir("a/b"), Some("a".to_string()));
    assert_eq!(service.get_parent_dir("a"), Some("".to_string()));
    assert_eq!(
        service.get_parent_dir("/home/user/notes.txt"),
        Some("/home/user".to_string())
    );
    // The same text gives the same parent.
    assert_eq!(
        service.get_parent_dir("/home/user"),
        service.get_parent_dir("/home/user")
    );
}

#[test]
fn lines_of_a_text() {
    use_lines("");
    use_lines("a");
    use_lines("a\n");
    use_lines("a\nb");
    use_lines("a\r\nb\r");
    use_lines("\n\n");
    use_lines("a\n\nb");
    use_lines("\r\n");
    use_lines("\r");
    use_lines("x\r\r\ny\n\r\n");
    let lines: Vec<String> = split_lines(&chars("a\r\nb\r"))
        .iter()
        .map(|l| l.iter().collect())
        .collect();
    assert_eq!(lines, vec!["a", "b\r"]);
}

fn use_lines(text: &str) {
    let ours: Vec<String> = split_lines(&chars(text))
        .iter()
        .map(|l| l.iter().collect())
        .collect();
    let theirs: Vec<String> = text.lines().map(|l| l.to_string()).collect();
    assert_eq!(ours, theirs);
}

#[test]
fn text_is_cut_after_a_hundred_lines() {
    assert_eq!(preview_of_text("a\nb"), "\u{1f4dd} Text File Content\n\na\nb");
    assert_eq!(preview_of_text(""), "\u{1f4dd} Text File Content\n\n");
    let hundred: String = (0..100).map(|i| format!("line {}\n", i)).collect();
    assert_eq!(
        preview_of_text(&hundred),
        format!("\u{1f4dd} Text File Content\n\n{}", hundred)
    );
    let more: String = (0..103).map(|i| format!("line {}\r\n", i)).collect();
    let first: Vec<String> = (0..100).map(|i| format!("line {}", i)).collect();
    assert_eq!(
        preview_of_text(&more),
        format!(
            "\u{1f4dd} Text File Preview (first 100 lines)\n\n{}\n\n... (3 more lines)",
            first.join("\n")
        )
    );
}

#[test]
fn preview_of_a_file() {
    let service = FileService::new();
    let mut file = entry("a.txt", "/w/a.txt", false);
    file.size = Some(5);
    assert_eq!(
        service.preview_text(&file, "5 B", &b"hello".to_vec()),
        "\u{1f4dd} Text File Content\n\nhello"
    );
    assert_eq!(
        service.preview_text(&file, "5 B", &"h\u{e9}llo".as_bytes().to_vec()),
        "\u{1f4dd} Text File Content\n\nh\u{e9}llo"
    );
    assert_eq!(
        service.preview_text(&file, "5 B", &vec![b'a', 0, b'b']),
        "\u{1f527} Binary file detected\n\nSize: 3 bytes\nPath: /w/a.txt\n\nThis appears to be a binary file and cannot be displayed as text."
    );
    assert_eq!(
        service.preview_text(&file, "5 B", &vec![0xff, b'a']),
        "\u{26a0}\u{fe0f} Invalid UTF-8 encoding\n\nPath: /w/a.txt\n\nFile contains non-UTF-8 data and cannot be displayed."
    );
    file.size = Some(1024 * 1024 + 1);
    assert_eq!(
        service.preview_text(&file, "1.0 MB", &b"hello".to_vec()),
        "\u{1f4c4} File too large to preview\n\nSize: 1.0 MB\nPath: /w/a.txt\n\nUse external editor to view this file."
    );
    file.size = Some(1024 * 1024);
    assert_eq!(
        service.preview_text(&file, "1.0 MB", &b"x".to_vec()),
        "\u{1f4dd} Text File Content\n\nx"
    );
}

#[test]
fn preview_of_a_directory() {
    let service = FileService::new();
    assert_eq!(
        service.list_directory_children(&Vec::new()),
        "\u{1f4c1} Directory Contents\n\n(Empty directory)"
    );
    let mut file = entry("a.txt", "/w/a.txt", false);
    file.size = Some(2048);
    let children = vec![
        (entry("sub", "/w/sub", true), String::new()),
        (file, "2.0 KB".to_string()),
        (entry("link", "/w/link", false), "ignored".to_string()),
    ];
    assert_eq!(
        preview_of_directory(&children),
        "\u{1f4c1} Directory Contents (3 items)\n\n\u{1f4c1} sub\n\u{1f4c4} a.txt (2.0 KB)\n\u{1f4c4} link\n"
    );
    let many: Vec<(FileEntry, String)> = (0..52)
        .map(|i| (entry(&format!("f{}", i), "/w/f", false), String::new()))
        .collect();
    let lines: String = (0..50).map(|i| format!("\u{1f4c4} f{}\n", i)).collect();
    assert_eq!(
        service.list_directory_children(&many),
        format!(
            "\u{1f4c1} Directory Contents (52 items)\n\n{}\n... and 2 more items",
            lines
        )
    );
}
