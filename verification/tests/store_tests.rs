use penscript::store::Store;
use penscript::store::StoreError;

fn store_with(titles_and_contents: &[(&str, &str)]) -> Store {
    let mut s = Store::new();
    for (t, c) in titles_and_contents {
        s.save(t, c).unwrap();
    }
    s
}

#[test]
fn create_and_load() {
    let mut s = Store::new();
    let n = s.create("First").unwrap();
    assert_eq!(n.title, "First");
    assert_eq!(n.content, "");
    let loaded = s.load("First").unwrap();
    assert_eq!(loaded.title, "First");
    assert_eq!(loaded.content, "");
    assert_eq!(loaded.modified_time, n.modified_time);
}

#[test]
fn create_rejects_blank_title() {
    let mut s = Store::new();
    assert_eq!(s.create("").unwrap_err(), StoreError::EmptyTitle);
    assert_eq!(s.create("  \t").unwrap_err(), StoreError::EmptyTitle);
}

#[test]
fn create_truncates_existing_file() {
    let mut s = store_with(&[("A", "kept text")]);
    s.create("A").unwrap();
    assert_eq!(s.load("A").unwrap().content, "");
}

#[test]
fn load_missing_is_not_found() {
    let s = Store::new();
    assert_eq!(s.load("ghost").unwrap_err(), StoreError::NotFound);
}

#[test]
fn save_overwrites_and_bumps_recency() {
    let mut s = store_with(&[("A", "one"), ("B", "two")]);
    s.save("A", "updated").unwrap();
    let all = s.list_all();
    assert_eq!(all[0].title, "A");
    assert_eq!(all[0].content, "updated");
    assert_eq!(all[1].title, "B");
    assert!(all[0].modified_time > all[1].modified_time);
}

#[test]
fn list_all_orders_by_recency_descending() {
    let s = store_with(&[("old", "1"), ("mid", "2"), ("new", "3")]);
    let all = s.list_all();
    let titles: Vec<&str> = all.iter().map(|n| n.title.as_str()).collect();
    assert_eq!(titles, vec!["new", "mid", "old"]);
    assert!(all[0].modified_time > all[1].modified_time);
    assert!(all[1].modified_time > all[2].modified_time);
}

#[test]
fn rename_moves_title_keeps_content_and_time() {
    let mut s = store_with(&[("A", "body"), ("B", "other")]);
    let before = s.load("A").unwrap().modified_time;
    s.rename("A", "C").unwrap();
    assert_eq!(s.load("A").unwrap_err(), StoreError::NotFound);
    let c = s.load("C").unwrap();
    assert_eq!(c.content, "body");
    assert_eq!(c.modified_time, before);
}

#[test]
fn rename_rejects_collision_and_blank() {
    let mut s = store_with(&[("A", ""), ("B", "")]);
    assert_eq!(s.rename("A", "B").unwrap_err(), StoreError::TitleCollision);
    assert_eq!(s.rename("A", "   ").unwrap_err(), StoreError::EmptyTitle);
    assert_eq!(s.rename("ghost", "D").unwrap_err(), StoreError::NotFound);
}

#[test]
fn rename_to_own_title_is_a_noop() {
    let mut s = store_with(&[("A", "body"), ("B", "other")]);
    let before = s.load("A").unwrap().modified_time;
    assert_eq!(s.rename("A", "A"), Ok(()));
    let a = s.load("A").unwrap();
    assert_eq!(a.content, "body");
    assert_eq!(a.modified_time, before);
    assert_eq!(s.count(), 2);
}

#[test]
fn delete_removes_only_that_note() {
    let mut s = store_with(&[("A", "1"), ("B", "2"), ("C", "3")]);
    s.delete("B").unwrap();
    assert_eq!(s.count(), 2);
    assert_eq!(s.load("B").unwrap_err(), StoreError::NotFound);
    assert_eq!(s.load("A").unwrap().content, "1");
    assert_eq!(s.load("C").unwrap().content, "3");
    assert_eq!(s.delete("B").unwrap_err(), StoreError::NotFound);
}

#[test]
fn failing_medium_blocks_writes_and_reads() {
    let mut s = store_with(&[("A", "1")]);
    s.set_media_ok(false);
    assert_eq!(s.save("A", "x").unwrap_err(), StoreError::IoFailure);
    assert_eq!(s.create("B").unwrap_err(), StoreError::IoFailure);
    assert_eq!(s.rename("A", "B").unwrap_err(), StoreError::IoFailure);
    assert_eq!(s.delete("A").unwrap_err(), StoreError::IoFailure);
    assert_eq!(s.load("A").unwrap_err(), StoreError::IoFailure);
    s.set_media_ok(true);
    assert_eq!(s.load("A").unwrap().content, "1");
}

#[test]
fn unique_title_on_fresh_date() {
    let s = Store::new();
    assert_eq!(s.unique_title_for_date("2024-01-01"), "Note 2024-01-01");
}

#[test]
fn unique_title_counts_past_existing() {
    // With the plain title and " (2)" taken on the same date, the next
    // free title is " (3)".
    let s = store_with(&[("Note 2024-01-01", ""), ("Note 2024-01-01 (2)", "")]);
    assert_eq!(s.unique_title_for_date("2024-01-01"), "Note 2024-01-01 (3)");
}

#[test]
fn unique_title_skips_a_long_run() {
    let mut s = Store::new();
    s.save("Note 2024-05-05", "").unwrap();
    for n in 2..=10 {
        s.save(&format!("Note 2024-05-05 ({})", n), "").unwrap();
    }
    assert_eq!(s.unique_title_for_date("2024-05-05"), "Note 2024-05-05 (11)");
}

#[test]
fn unique_title_ignores_gaps_only_before() {
    let s = store_with(&[("Note 2024-01-01 (2)", "")]);
    // The plain title is free, so it is chosen even though " (2)" is taken.
    assert_eq!(s.unique_title_for_date("2024-01-01"), "Note 2024-01-01");
}

#[test]
fn note_methods() {
    let mut s = Store::new();
    s.save("Note 2024-03-03", "  \n\t").unwrap();
    let n = s.load("Note 2024-03-03").unwrap();
    assert!(n.is_empty());
    assert!(n.has_default_title());
    assert_eq!(n.generate_title_from_content(), None);
    s.save("Shopping", "milk and eggs\nmore").unwrap();
    let m = s.load("Shopping").unwrap();
    assert!(!m.is_empty());
    assert!(!m.has_default_title());
    assert_eq!(m.generate_title_from_content(), Some("milk and eggs".to_string()));
}

#[test]
fn retitle_stale_empty_renames_old_blank_note() {
    let mut s = store_with(&[("Note 2024-01-01", "  ")]);
    let r = s.retitle_stale_empty("Note 2024-01-01", 100, 101, "2024-01-02").unwrap();
    assert!(r);
    assert_eq!(s.load("Note 2024-01-01").unwrap_err(), StoreError::NotFound);
    assert_eq!(s.load("Note 2024-01-02").unwrap().content, "  ");
}

#[test]
fn retitle_stale_empty_leaves_fresh_or_filled_notes() {
    let mut s = store_with(&[("Today", ""), ("Filled", "text")]);
    assert_eq!(s.retitle_stale_empty("Today", 101, 101, "2024-01-02"), Ok(false));
    assert_eq!(s.retitle_stale_empty("Filled", 90, 101, "2024-01-02"), Ok(false));
    assert_eq!(
        s.retitle_stale_empty("ghost", 90, 101, "2024-01-02"),
        Err(StoreError::NotFound)
    );
    assert!(s.load("Today").is_ok());
    assert!(s.load("Filled").is_ok());
}
