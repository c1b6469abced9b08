use std::path::{Path, PathBuf};

use ide_sync_pro::history::{
    append_history, get_history_dir, get_history_file_path, sync_record, HISTORY_LIMIT,
};
use ide_sync_pro::models::{Platform, SyncRecord, SyncResult};
use ide_sync_pro::ide::get_keybindings_path;
use ide_sync_pro::paths::{join_path, parent_length, separates, sibling};
use ide_sync_pro::text::{
    contains, decimal, join2, join3, lines, matches_at, signed_decimal, starts_with,
};

const TEXTS: [&str; 22] = [
    "",
    "a",
    "a\n",
    "a\nb",
    "a\nb\n",
    "a\r\nb\r\n",
    "\n",
    "\n\n",
    "\r\n",
    "a\r",
    "a\r\r\n",
    "a\n\rb",
    "\r",
    "\r\r",
    "one.two\nthree.four\n\nfive",
    "ms-python.python\r\nrust-lang.rust-analyzer\r\n",
    "  spaced  \n\ttabbed\t",
    "héllo\nwörld\r\n灵码",
    "\n\na",
    "a\n\n",
    "a\r\n\r\nb",
    "last\r\n\r",
];

#[test]
fn lines_agree_with_the_standard_library() {
    for text in TEXTS {
        let expected: Vec<String> = text.lines().map(|line| line.to_string()).collect();
        assert_eq!(lines(text), expected, "lines of {:?}", text);
    }
}

#[test]
fn lines_of_a_listing_are_the_identifiers_in_order() {
    assert_eq!(lines("a.b\nc.d\n"), vec!["a.b".to_string(), "c.d".to_string()]);
    assert_eq!(lines("a.b\r\nc.d"), vec!["a.b".to_string(), "c.d".to_string()]);
    assert_eq!(lines("a.b\n\na.b\n"), vec!["a.b".to_string(), String::new(), "a.b".to_string()]);
    assert!(lines("").is_empty());
}

#[test]
fn decimal_agrees_with_the_standard_library() {
    for n in [0u64, 1, 9, 10, 11, 99, 100, 101, 12345, 1_000_000, u64::MAX - 1, u64::MAX] {
        assert_eq!(decimal(n), n.to_string());
    }
    for n in [0i64, 1, -1, 9, -9, 10, -10, 1700000000, -1700000000, i64::MAX, i64::MIN, i64::MIN + 1] {
        assert_eq!(signed_decimal(n), n.to_string());
    }
}

#[test]
fn prefixes_and_fragments_agree_with_the_standard_library() {
    let samples = [
        "",
        "a",
        "settings.json",
        "settings.json.backup.20240101-000000",
        "settings.json.backup.20240101-000000.meta.json",
        "settings.json.bak",
        ".backup.",
        ".backup",
        "x.backup.",
        "灵码.backup.灵",
        "aaa",
        "aab",
    ];
    let fragments = ["", "a", "aa", "ab", ".backup.", "settings.json", "灵", "json", "b"];
    for text in samples {
        for fragment in fragments {
            assert_eq!(starts_with(text, fragment), text.starts_with(fragment), "{:?} {:?}", text, fragment);
            assert_eq!(contains(text, fragment), text.contains(fragment), "{:?} {:?}", text, fragment);
        }
    }
}

#[test]
fn matches_at_counts_characters() {
    assert!(matches_at("灵码.backup.", ".backup.", 2));
    assert!(!matches_at("灵码.backup.", ".backup.", 1));
    assert!(matches_at("abc", "", 3));
    assert!(!matches_at("abc", "", 4));
    assert!(!matches_at("abc", "bcd", 1));
    assert!(!matches_at("abc", "c", usize::MAX));
}

#[test]
fn joins_put_the_texts_one_after_the_other() {
    assert_eq!(join2("a", "b"), "ab");
    assert_eq!(join2("", ""), "");
    assert_eq!(join3("/f", ".backup.", "20240101-000000"), "/f.backup.20240101-000000");
}

const PATHS: [&str; 44] = [
    "",
    "/",
    "//",
    "///",
    ".",
    "..",
    "./",
    "../",
    "./.",
    "./..",
    "/.",
    "/..",
    "a",
    "a/",
    "a//",
    "a/.",
    "a/./",
    "a/..",
    "a/b",
    "a//b",
    "a/./b",
    "a/b/",
    "a/b/.",
    "a/b/./",
    "a/b//./",
    "./a",
    ".//a",
    "././a",
    "./a/b",
    "../a",
    "/a",
    "/a/",
    "/a/b",
    "//a//b//",
    "/a/./b/.",
    ".a",
    ".a/b",
    "a/.b",
    "..a/b",
    "settings.json",
    "/home/u/.config/Code/User/settings.json",
    "/home/u/.config/Code - OSS/User/settings.json",
    "C:\\Users\\u\\settings.json",
    "/Users/u/Library/Application Support/Cursor/User/settings.json",
];

#[test]
fn parents_agree_with_the_standard_library() {
    for path in PATHS {
        let expected = Path::new(path).parent().map(|parent| parent.to_str().unwrap().chars().count());
        assert_eq!(parent_length(Platform::Linux, path), expected, "parent of {:?}", path);
        assert_eq!(parent_length(Platform::MacOs, path), expected, "parent of {:?}", path);
    }
}

#[test]
fn keybindings_paths_agree_with_the_standard_library() {
    for path in PATHS {
        let mut expected = PathBuf::from(path);
        expected.pop();
        expected.push("keybindings.json");
        assert_eq!(
            get_keybindings_path(path, Platform::Linux),
            expected.to_str().unwrap(),
            "keybindings beside {:?}",
            path
        );
    }
}

#[test]
fn joined_paths_agree_with_the_standard_library() {
    for base in PATHS {
        for rest in ["Code/User/settings.json", ".vscode/extensions", "history.json", "a b/c"] {
            let expected = Path::new(base).join(rest);
            assert_eq!(join_path(Platform::Linux, base, rest), expected.to_str().unwrap());
            assert_eq!(sibling(Platform::Linux, base, rest), {
                let mut beside = PathBuf::from(base);
                beside.pop();
                beside.push(rest);
                beside.to_str().unwrap().to_string()
            });
        }
    }
}

#[test]
fn keybindings_lie_beside_the_settings() {
    assert_eq!(
        get_keybindings_path("/home/u/.config/Code/User/settings.json", Platform::Linux),
        "/home/u/.config/Code/User/keybindings.json"
    );
    assert_eq!(get_keybindings_path("settings.json", Platform::Linux), "keybindings.json");
    assert_eq!(get_keybindings_path("/settings.json", Platform::MacOs), "/keybindings.json");
    assert_eq!(get_keybindings_path("", Platform::Linux), "keybindings.json");
    assert_eq!(get_keybindings_path("/", Platform::Linux), "/keybindings.json");
}

#[test]
fn windows_paths_part_at_both_separators() {
    assert!(separates(Platform::Windows, '\\'));
    assert!(separates(Platform::Windows, '/'));
    assert!(!separates(Platform::Linux, '\\'));
    assert!(separates(Platform::Linux, '/'));
    assert!(!separates(Platform::MacOs, 'a'));
    assert_eq!(
        get_keybindings_path("C:\\Users\\u\\AppData\\Roaming\\Code\\User\\settings.json", Platform::Windows),
        "C:\\Users\\u\\AppData\\Roaming\\Code\\User\\keybindings.json"
    );
    assert_eq!(
        get_keybindings_path("C:\\Users\\u\\AppData\\Roaming\\Code/User/settings.json", Platform::Windows),
        "C:\\Users\\u\\AppData\\Roaming\\Code/User\\keybindings.json"
    );
    assert_eq!(
        get_keybindings_path("C:\\Users\\u\\settings.json", Platform::Linux),
        "keybindings.json"
    );
    assert_eq!(join_path(Platform::Windows, "C:\\Users\\u", "AppData/Roaming"), "C:\\Users\\u\\AppData/Roaming");
    assert_eq!(join_path(Platform::Windows, "C:\\Users\\u\\", "x"), "C:\\Users\\u\\x");
    assert_eq!(join_path(Platform::Windows, "C:/Users/u/", "x"), "C:/Users/u/x");
    assert_eq!(join_path(Platform::Windows, "", "x"), "x");
    assert_eq!(parent_length(Platform::Windows, "a\\b"), Some(1));
    assert_eq!(parent_length(Platform::Windows, "\\"), None);
}

fn record(id: &str) -> SyncRecord {
    SyncRecord {
        id: id.to_string(),
        timestamp: 0,
        source_name: "a".to_string(),
        target_name: "b".to_string(),
        status: "Success".to_string(),
        details: String::new(),
    }
}

#[test]
fn history_takes_the_new_record_first() {
    let history = append_history(vec![record("1"), record("2")], record("3"));
    let ids: Vec<&str> = history.iter().map(|r| r.id.as_str()).collect();
    assert_eq!(ids, vec!["3", "1", "2"]);
    let first = append_history(Vec::new(), record("only"));
    assert_eq!(first.len(), 1);
}

#[test]
fn history_keeps_no_more_than_its_limit() {
    assert_eq!(HISTORY_LIMIT, 50);
    let mut history = Vec::new();
    for i in 0..49 {
        history = append_history(history, record(&i.to_string()));
    }
    assert_eq!(history.len(), 49);
    history = append_history(history, record("49"));
    assert_eq!(history.len(), 50);
    history = append_history(history, record("50"));
    assert_eq!(history.len(), 50);
    assert_eq!(history[0].id, "50");
    assert_eq!(history[49].id, "1");
    let long: Vec<SyncRecord> = (0..80).map(|i| record(&i.to_string())).collect();
    let cut = append_history(long, record("new"));
    assert_eq!(cut.len(), 50);
    assert_eq!(cut[0].id, "new");
    assert_eq!(cut[49].id, "48");
}

#[test]
fn history_record_tells_how_a_run_ended() {
    let good = SyncResult { success: true, log: vec!["a".to_string()] };
    let made = sync_record(&good, 1700000000, "VS Code", "Cursor");
    assert_eq!(made.id, "1700000000");
    assert_eq!(made.timestamp, 1700000000);
    assert_eq!(made.source_name, "VS Code");
    assert_eq!(made.target_name, "Cursor");
    assert_eq!(made.status, "Success");
    assert_eq!(made.details, "同步成功");

    let bad = SyncResult { success: false, log: (0..12).map(|i| i.to_string()).collect() };
    let made = sync_record(&bad, -5, "A", "B");
    assert_eq!(made.id, "-5");
    assert_eq!(made.status, "Failed");
    assert_eq!(made.details, "同步失败，共 12 条日志");
}

#[test]
fn history_lies_below_the_home_directory() {
    assert_eq!(get_history_dir("/home/u", Platform::Linux), "/home/u/.ide-sync-pro");
    assert_eq!(get_history_file_path("/home/u", Platform::Linux), "/home/u/.ide-sync-pro/history.json");
    assert_eq!(get_history_file_path("/home/u/", Platform::MacOs), "/home/u/.ide-sync-pro/history.json");
    assert_eq!(
        get_history_file_path("C:\\Users\\u", Platform::Windows),
        "C:\\Users\\u\\.ide-sync-pro\\history.json"
    );
}
