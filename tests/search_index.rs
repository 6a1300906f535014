use file_explorer::filesystem::util::{WalkedEntry, SearchIndex};
use file_explorer::filesystem::{fill_hashmap, search_hash_map};

fn walked(path: &str, is_file: bool) -> WalkedEntry {
    WalkedEntry { path: path.to_string(), is_file }
}

fn sample() -> SearchIndex {
    fill_hashmap(&vec![
        walked("./root", false),
        walked("./root/report.txt", true),
        walked("./root/sub", false),
        walked("./root/sub/notes.md", true),
        walked("./root/sub/report.txt", true),
        walked("./root/data.csv", true),
    ])
}

#[test]
fn directories_are_not_indexed() {
    let index = sample();
    assert_eq!(index.len(), 3);
    assert_eq!(index.path_of(&"sub".to_string()), None);
    assert_eq!(index.path_of(&"root".to_string()), None);
}

#[test]
fn later_entry_with_same_name_wins() {
    let index = sample();
    assert_eq!(
        index.path_of(&"report.txt".to_string()),
        Some("./root/sub/report.txt".to_string())
    );
    assert_eq!(index.path_of(&"notes.md".to_string()), Some("./root/sub/notes.md".to_string()));
}

#[test]
fn empty_query_returns_every_name() {
    let index = sample();
    assert_eq!(
        search_hash_map(String::new(), &index),
        vec!["report.txt".to_string(), "notes.md".to_string(), "data.csv".to_string()]
    );
}

#[test]
fn query_keeps_names_containing_it() {
    let index = sample();
    assert_eq!(search_hash_map("e".to_string(), &index), vec!["report.txt", "notes.md"]);
    assert_eq!(search_hash_map(".csv".to_string(), &index), vec!["data.csv"]);
    assert!(search_hash_map("zzz".to_string(), &index).is_empty());
}

#[test]
fn query_is_case_sensitive() {
    let index = sample();
    assert!(search_hash_map("REPORT".to_string(), &index).is_empty());
}

#[test]
fn query_twice_gives_same_names() {
    let index = sample();
    let first = search_hash_map("o".to_string(), &index);
    let second = search_hash_map("o".to_string(), &index);
    assert_eq!(first, second);
}

#[test]
fn insert_replaces_in_place() {
    let mut index = SearchIndex::new();
    index.insert("a".to_string(), "/1/a".to_string());
    index.insert("b".to_string(), "/1/b".to_string());
    index.insert("a".to_string(), "/2/a".to_string());
    assert_eq!(index.len(), 2);
    assert_eq!(index.search(""), vec!["a", "b"]);
    assert_eq!(index.path_of(&"a".to_string()), Some("/2/a".to_string()));
}
