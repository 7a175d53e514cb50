use llm_term::cache::{PromptCache, StorageError};

#[test]
fn new_cache_is_empty() {
    let cache = PromptCache::new();
    assert_eq!(cache.len(), 0);
    assert_eq!(cache.get("list files"), None);
    assert!(!cache.contains_key("list files"));
}

#[test]
fn inserted_command_is_found_again() {
    let mut cache = PromptCache::new();
    cache.insert("list files".to_string(), "ls -la".to_string());
    assert_eq!(cache.get("list files"), Some("ls -la".to_string()));
    assert!(cache.contains_key("list files"));
    assert_eq!(cache.len(), 1);
}

#[test]
fn insert_replaces_the_command_of_a_known_prompt() {
    let mut cache = PromptCache::new();
    cache.insert("list files".to_string(), "ls -la".to_string());
    cache.insert("show date".to_string(), "date".to_string());
    cache.insert("list files".to_string(), "ls -a".to_string());
    assert_eq!(cache.len(), 2);
    assert_eq!(cache.get("list files"), Some("ls -a".to_string()));
    assert_eq!(cache.get("show date"), Some("date".to_string()));
}

#[test]
fn keys_are_used_verbatim() {
    let mut cache = PromptCache::new();
    cache.insert("build it".to_string(), "make".to_string());
    cache.insert("Build it".to_string(), "cargo build".to_string());
    cache.insert("build it ".to_string(), "ninja".to_string());
    assert_eq!(cache.len(), 3);
    assert_eq!(cache.get("build it"), Some("make".to_string()));
    assert_eq!(cache.get("Build it"), Some("cargo build".to_string()));
    assert_eq!(cache.get("build it "), Some("ninja".to_string()));
    assert_eq!(cache.get("BUILD IT"), None);
}

#[test]
fn remove_drops_exactly_one_entry() {
    let mut cache = PromptCache::new();
    cache.insert("a".to_string(), "1".to_string());
    cache.insert("b".to_string(), "2".to_string());
    cache.insert("c".to_string(), "3".to_string());
    cache.remove("b");
    assert_eq!(cache.len(), 2);
    assert_eq!(cache.get("a"), Some("1".to_string()));
    assert_eq!(cache.get("b"), None);
    assert_eq!(cache.get("c"), Some("3".to_string()));
}

#[test]
fn remove_of_unknown_prompt_changes_nothing() {
    let mut cache = PromptCache::new();
    cache.insert("a".to_string(), "1".to_string());
    cache.remove("z");
    assert_eq!(cache.len(), 1);
    assert_eq!(cache.get("a"), Some("1".to_string()));
}

#[test]
fn cache_is_written_as_pretty_json() {
    let mut cache = PromptCache::new();
    cache.insert("list files".to_string(), "ls -la".to_string());
    assert_eq!(cache.to_json().unwrap(), "{\n  \"list files\": \"ls -la\"\n}");
}

#[test]
fn every_cache_can_be_written() {
    let mut cache = PromptCache::new();
    assert!(cache.to_json().is_ok());
    cache.insert(String::new(), String::new());
    cache.insert("\u{0}\u{1f}\"\\".to_string(), "\u{10ffff}\n".to_string());
    assert!(cache.to_json().is_ok());
    assert_eq!(cache.to_json().unwrap(), cache.clone().to_json().unwrap());
}

#[test]
fn empty_cache_is_written_as_empty_object() {
    assert_eq!(PromptCache::new().to_json().unwrap(), "{}");
}

#[test]
fn written_entries_are_ordered_by_key() {
    let mut cache = PromptCache::new();
    cache.insert("b".to_string(), "2".to_string());
    cache.insert("a".to_string(), "say \"hi\"".to_string());
    assert_eq!(cache.to_json().unwrap(), "{\n  \"a\": \"say \\\"hi\\\"\",\n  \"b\": \"2\"\n}");
}

#[test]
fn cache_is_read_from_json() {
    let cache = PromptCache::from_json("{\"list files\": \"ls -la\", \"show date\": \"date\"}").unwrap();
    assert_eq!(cache.len(), 2);
    assert_eq!(cache.get("list files"), Some("ls -la".to_string()));
    assert_eq!(cache.get("show date"), Some("date".to_string()));
}

#[test]
fn written_cache_reads_back_unchanged() {
    let mut cache = PromptCache::new();
    cache.insert("list files".to_string(), "ls -la".to_string());
    cache.insert("quote \"it\"\n".to_string(), "echo 'a\\b'\t\u{e9}".to_string());
    let text = cache.to_json().unwrap();
    let again = PromptCache::from_json(&text).unwrap();
    assert_eq!(again.len(), 2);
    assert_eq!(again.get("list files"), Some("ls -la".to_string()));
    assert_eq!(again.get("quote \"it\"\n"), Some("echo 'a\\b'\t\u{e9}".to_string()));
    assert_eq!(again.to_json().unwrap(), text);
}

#[test]
fn malformed_text_is_refused() {
    assert!(matches!(PromptCache::from_json("not json"), Err(StorageError::Decode(_))));
    assert!(matches!(PromptCache::from_json(""), Err(StorageError::Decode(_))));
    assert!(matches!(PromptCache::from_json("[1, 2]"), Err(StorageError::Decode(_))));
    assert!(matches!(PromptCache::from_json("{\"a\": 1}"), Err(StorageError::Decode(_))));
}

#[test]
fn unreadable_file_gives_an_empty_cache() {
    let cache = PromptCache::load(None).unwrap();
    assert_eq!(cache.len(), 0);
}

#[test]
fn readable_file_gives_its_entries() {
    let cache = PromptCache::load(Some("{\"list files\": \"ls -la\"}")).unwrap();
    assert_eq!(cache.len(), 1);
    assert_eq!(cache.get("list files"), Some("ls -la".to_string()));
    assert!(matches!(PromptCache::load(Some("{")), Err(StorageError::Decode(_))));
}

#[test]
fn repeated_key_in_text_keeps_the_last_value() {
    let cache = PromptCache::from_json("{\"a\": \"1\", \"a\": \"2\"}").unwrap();
    assert_eq!(cache.len(), 1);
    assert_eq!(cache.get("a"), Some("2".to_string()));
}
