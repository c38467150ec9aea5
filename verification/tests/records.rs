use snippets_app::model::Snippet;
use snippets_app::storage::records::{delete_by_title, get_by_title, next_id, save_by_title, sort_by_id};

fn snip(id: i64, title: &str, code: &str) -> Snippet {
    Snippet { id, title: title.to_string(), code: code.to_string(), created_at: 0 }
}

fn ids(all: &[Snippet]) -> Vec<i64> {
    all.iter().map(|s| s.id).collect()
}

fn codes(all: &[Snippet]) -> Vec<String> {
    all.iter().map(|s| s.code.clone()).collect()
}

#[test]
fn save_appends_a_new_title() {
    let mut all = vec![snip(1, "a", "x")];
    save_by_title(&mut all, snip(2, "b", "y"));
    assert_eq!(ids(&all), vec![1, 2]);
    assert_eq!(codes(&all), vec!["x", "y"]);
}

#[test]
fn save_replaces_the_first_record_with_the_title_in_place() {
    let mut all = vec![snip(1, "a", "x"), snip(2, "b", "y"), snip(3, "b", "z")];
    save_by_title(&mut all, snip(9, "b", "new"));
    assert_eq!(ids(&all), vec![1, 9, 3]);
    assert_eq!(codes(&all), vec!["x", "new", "z"]);
}

#[test]
fn lookup_reads_back_what_was_saved_and_leaves_other_titles() {
    let mut all = vec![snip(1, "a", "x"), snip(2, "b", "y")];
    save_by_title(&mut all, snip(3, "c", "z"));
    let got = get_by_title(all.clone(), "c").unwrap();
    assert_eq!((got.id, got.code.as_str()), (3, "z"));
    let other = get_by_title(all.clone(), "a").unwrap();
    assert_eq!((other.id, other.code.as_str()), (1, "x"));
}

#[test]
fn lookup_gives_the_first_record_with_the_title() {
    let all = vec![snip(1, "a", "x"), snip(2, "t", "first"), snip(3, "t", "second")];
    let got = get_by_title(all, "t").unwrap();
    assert_eq!(got.code, "first");
}

#[test]
fn lookup_of_a_missing_title_gives_nothing() {
    assert!(get_by_title(Vec::new(), "a").is_none());
    assert!(get_by_title(vec![snip(1, "ab", "x")], "a").is_none());
}

#[test]
fn delete_removes_every_record_with_the_title_and_keeps_the_order() {
    let mut all = vec![snip(1, "t", "a"), snip(2, "u", "b"), snip(3, "t", "c"), snip(4, "v", "d")];
    assert!(delete_by_title(&mut all, "t"));
    assert_eq!(ids(&all), vec![2, 4]);
    assert!(get_by_title(all.clone(), "t").is_none());
    assert_eq!(get_by_title(all.clone(), "v").unwrap().id, 4);
}

#[test]
fn delete_of_a_missing_title_reports_false_and_changes_nothing() {
    let mut all = vec![snip(1, "a", "x")];
    assert!(!delete_by_title(&mut all, "b"));
    assert_eq!(ids(&all), vec![1]);
    let mut empty: Vec<Snippet> = Vec::new();
    assert!(!delete_by_title(&mut empty, "b"));
    assert!(empty.is_empty());
}

#[test]
fn next_id_is_one_more_than_the_greatest() {
    assert_eq!(next_id(&Vec::new()), 1);
    assert_eq!(next_id(&vec![snip(4, "a", ""), snip(10, "b", ""), snip(7, "c", "")]), 11);
    assert_eq!(next_id(&vec![snip(-5, "a", ""), snip(-3, "b", "")]), -2);
    assert_eq!(next_id(&vec![snip(i64::MAX - 1, "a", "")]), i64::MAX);
}

#[test]
fn next_id_after_saving_it_grows_by_one() {
    let mut all = vec![snip(5, "a", "x")];
    let id = next_id(&all);
    save_by_title(&mut all, snip(id, "a", "y"));
    assert_eq!(next_id(&all), id + 1);
}

#[test]
fn sort_orders_by_id_and_keeps_equal_ids_in_order() {
    let mut all = vec![
        snip(3, "c", "1"),
        snip(1, "a", "2"),
        snip(2, "b", "3"),
        snip(1, "d", "4"),
        snip(-7, "e", "5"),
        snip(2, "f", "6"),
    ];
    sort_by_id(&mut all);
    assert_eq!(ids(&all), vec![-7, 1, 1, 2, 2, 3]);
    assert_eq!(codes(&all), vec!["5", "2", "4", "3", "6", "1"]);
}

#[test]
fn sort_of_sorted_records_changes_nothing() {
    let mut all = vec![snip(1, "a", "x"), snip(2, "b", "y"), snip(3, "c", "z")];
    sort_by_id(&mut all);
    assert_eq!(ids(&all), vec![1, 2, 3]);
    let mut empty: Vec<Snippet> = Vec::new();
    sort_by_id(&mut empty);
    assert!(empty.is_empty());
}
