use std::path::PathBuf;

use snippets_app::model::Snippet;
use snippets_app::storage::json::JsonStorage;
use snippets_app::storage::records::{delete_by_title, get_by_title, next_id, save_by_title, sort_by_id};

/// The records of a storage whose file does not exist yet.
fn empty_file_records() -> Vec<Snippet> {
    Vec::new()
}

#[test]
fn json_storage_empty_list_when_file_missing() {
    let path = PathBuf::from("snippets.json");
    let storage = JsonStorage::new(path.clone());
    assert_eq!(storage.path(), &path);

    let mut list = empty_file_records();
    sort_by_id(&mut list);

    assert!(list.is_empty());
}

#[test]
fn json_storage_save_and_get_by_title() {
    let mut records = empty_file_records();

    let id = next_id(&records);
    let snip = Snippet::new(id, "hello".to_string(), "println!(\"hi\");".to_string()).unwrap();
    save_by_title(&mut records, snip);

    let loaded = get_by_title(records.clone(), "hello").unwrap();
    assert_eq!(loaded.title, "hello");
    assert_eq!(loaded.code, "println!(\"hi\");");
}

#[test]
fn json_storage_upsert_by_title_replaces_code() {
    let mut records = empty_file_records();

    let id1 = next_id(&records);
    save_by_title(&mut records, Snippet::new(id1, "same".to_string(), "one".to_string()).unwrap());

    let id2 = next_id(&records);
    save_by_title(&mut records, Snippet::new(id2, "same".to_string(), "two".to_string()).unwrap());

    let loaded = get_by_title(records.clone(), "same").unwrap();
    assert_eq!(loaded.code, "two");
}

#[test]
fn json_storage_delete() {
    let mut records = empty_file_records();

    let id = next_id(&records);
    save_by_title(&mut records, Snippet::new(id, "bye".to_string(), "x".to_string()).unwrap());

    let deleted = delete_by_title(&mut records, "bye");
    assert!(deleted);

    assert!(get_by_title(records.clone(), "bye").is_none());
}

#[test]
fn json_storage_next_id_increments() {
    let mut records = empty_file_records();

    let id1 = next_id(&records);
    save_by_title(&mut records, Snippet::new(id1, "a".to_string(), "1".to_string()).unwrap());

    let id2 = next_id(&records);
    assert_eq!(id2, id1 + 1);
}
