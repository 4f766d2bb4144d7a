use penscript::session::Controller;
use penscript::session::Status;
use penscript::store::Store;
use penscript::store::StoreError;

fn controller_with(notes: &[(&str, &str)]) -> Controller {
    let mut s = Store::new();
    for (t, c) in notes {
        s.save(t, c).unwrap();
    }
    Controller::with_store(s)
}

#[test]
fn select_loads_note_into_editor() {
    let mut c = controller_with(&[("A", "alpha body"), ("B", "beta")]);
    let out = c.on_select(Some("A"));
    assert_eq!(out.editor_text.as_deref(), Some("alpha body"));
    assert_eq!(out.window_title, Some(Some("A".to_string())));
    assert_eq!(out.status, Some(Status::Ready));
    assert_eq!(out.word_count, Some(2));
    assert_eq!(out.error, None);
    assert_eq!(c.active_note().unwrap().title, "A");
    assert!(!c.is_dirty());
}

#[test]
fn select_missing_note_empties_session() {
    let mut c = controller_with(&[("A", "alpha")]);
    c.on_select(Some("A"));
    let out = c.on_select(Some("ghost"));
    assert_eq!(out.editor_text.as_deref(), Some(""));
    assert_eq!(out.status, Some(Status::LoadError));
    assert!(c.active_note().is_none());
}

#[test]
fn deselect_flushes_and_clears() {
    let mut c = controller_with(&[("A", "alpha")]);
    c.on_select(Some("A"));
    c.on_edit("changed");
    let out = c.on_select(None);
    assert_eq!(out.editor_text.as_deref(), Some(""));
    assert!(out.refresh_list);
    assert!(c.active_note().is_none());
    assert_eq!(c.store().load("A").unwrap().content, "changed");
}

#[test]
fn edit_marks_dirty_and_schedules() {
    let mut c = controller_with(&[("A", "alpha")]);
    c.on_select(Some("A"));
    let out = c.on_edit("alpha beta gamma");
    assert!(c.is_dirty());
    assert_eq!(out.word_count, Some(3));
    assert_eq!(out.status, Some(Status::Editing));
    let h = out.scheduled_timer.unwrap();
    assert_eq!(c.pending_handle(), Some(h));
    // The store still holds the old text until the timer fires.
    assert_eq!(c.store().load("A").unwrap().content, "alpha");
}

#[test]
fn edit_without_active_note_only_counts_words() {
    let mut c = controller_with(&[("A", "alpha")]);
    let out = c.on_edit("stray words here");
    assert_eq!(out.word_count, Some(3));
    assert_eq!(out.scheduled_timer, None);
    assert_eq!(out.status, None);
    assert!(c.store().load("A").unwrap().content == "alpha");
}

#[test]
fn autosave_fire_writes_snapshot_and_cleans() {
    let mut c = controller_with(&[("A", "alpha")]);
    c.on_select(Some("A"));
    let out = c.on_edit("fresh text");
    let h = out.scheduled_timer.unwrap();
    let fired = c.on_autosave_fire(h);
    assert_eq!(fired.status, Some(Status::AutoSaved));
    assert!(fired.refresh_list);
    assert_eq!(fired.select_row.as_deref(), Some("A"));
    assert!(!c.is_dirty());
    assert_eq!(c.pending_handle(), None);
    assert_eq!(c.store().load("A").unwrap().content, "fresh text");
}

#[test]
fn autosave_failure_keeps_dirty() {
    let mut c = controller_with(&[("A", "alpha")]);
    c.on_select(Some("A"));
    let h = c.on_edit("unsaved").scheduled_timer.unwrap();
    c.set_media_ok(false);
    let fired = c.on_autosave_fire(h);
    assert_eq!(fired.status, Some(Status::AutoSaveFailed));
    assert!(c.is_dirty());
    assert_eq!(c.pending_handle(), None);
    c.set_media_ok(true);
    assert_eq!(c.store().load("A").unwrap().content, "alpha");
}

#[test]
fn debounce_coalesces_edits_into_one_save() {
    // A run of edits inside one quiet period: every edit cancels the
    // previous timer, and only the last snapshot is ever written.
    let mut c = controller_with(&[("A", "start")]);
    c.on_select(Some("A"));
    let h1 = c.on_edit("draft one").scheduled_timer.unwrap();
    let out2 = c.on_edit("draft two");
    assert_eq!(out2.cancelled_timer, Some(h1));
    let h2 = out2.scheduled_timer.unwrap();
    let out3 = c.on_edit("final draft");
    assert_eq!(out3.cancelled_timer, Some(h2));
    let h3 = out3.scheduled_timer.unwrap();
    // The earlier timers were cancelled: firing them does nothing.
    assert_eq!(c.on_autosave_fire(h1).status, None);
    assert_eq!(c.on_autosave_fire(h2).status, None);
    assert_eq!(c.store().load("A").unwrap().content, "start");
    // The surviving timer writes the content of the last edit, once.
    let fired = c.on_autosave_fire(h3);
    assert_eq!(fired.status, Some(Status::AutoSaved));
    assert_eq!(c.store().load("A").unwrap().content, "final draft");
    assert!(!c.is_dirty());
}

#[test]
fn flush_failure_blocks_switch() {
    // Note A is dirty and its storage fails on write: selecting B aborts,
    // A stays active and dirty, and B is never loaded.
    let mut c = controller_with(&[("A", "alpha"), ("B", "beta")]);
    c.on_select(Some("A"));
    c.on_edit("unsaved changes");
    c.set_media_ok(false);
    let out = c.on_select(Some("B"));
    assert_eq!(out.error, Some(StoreError::IoFailure));
    assert_eq!(out.editor_text, None);
    assert_eq!(c.active_note().unwrap().title, "A");
    assert!(c.is_dirty());
    c.set_media_ok(true);
    assert_eq!(c.store().load("A").unwrap().content, "alpha");
    assert_eq!(c.store().load("B").unwrap().content, "beta");
}

#[test]
fn switch_flushes_once_and_cancels_timer() {
    // Select B while A is dirty with a pending timer: the timer is
    // cancelled, exactly one write of A happens (the flush), and a stray
    // fire of the old handle writes nothing.
    let mut c = controller_with(&[("A", "alpha"), ("B", "beta")]);
    c.on_select(Some("A"));
    let h = c.on_edit("flushed text").scheduled_timer.unwrap();
    let out = c.on_select(Some("B"));
    assert_eq!(out.cancelled_timer, Some(h));
    assert_eq!(out.error, None);
    assert_eq!(c.active_note().unwrap().title, "B");
    let a_time = c.store().load("A").unwrap().modified_time;
    assert_eq!(c.store().load("A").unwrap().content, "flushed text");
    let stray = c.on_autosave_fire(h);
    assert_eq!(stray.status, None);
    assert!(!stray.refresh_list);
    assert_eq!(c.store().load("A").unwrap().content, "flushed text");
    assert_eq!(c.store().load("A").unwrap().modified_time, a_time);
}

#[test]
fn new_note_gets_dated_title_and_focus() {
    let mut c = controller_with(&[]);
    let out = c.on_new_note_with_date("2024-06-01");
    assert_eq!(out.select_row.as_deref(), Some("Note 2024-06-01"));
    assert_eq!(out.editor_text.as_deref(), Some(""));
    assert_eq!(out.word_count, Some(0));
    assert_eq!(out.status, Some(Status::Ready));
    assert!(out.refresh_list);
    assert_eq!(c.active_note().unwrap().title, "Note 2024-06-01");
    assert_eq!(c.store().load("Note 2024-06-01").unwrap().content, "");
}

#[test]
fn new_note_never_reuses_an_existing_empty_note() {
    let mut c = controller_with(&[("Note 2024-06-01", "")]);
    let out = c.on_new_note_with_date("2024-06-01");
    assert_eq!(out.select_row.as_deref(), Some("Note 2024-06-01 (2)"));
    assert_eq!(c.store().count(), 2);
}

#[test]
fn new_note_flushes_previous_one_first() {
    let mut c = controller_with(&[("A", "alpha")]);
    c.on_select(Some("A"));
    c.on_edit("kept");
    let out = c.on_new_note_with_date("2024-06-01");
    assert_eq!(out.error, None);
    assert_eq!(c.store().load("A").unwrap().content, "kept");
    assert_eq!(c.active_note().unwrap().title, "Note 2024-06-01");
}

#[test]
fn new_note_aborts_when_flush_fails() {
    let mut c = controller_with(&[("A", "alpha")]);
    c.on_select(Some("A"));
    c.on_edit("unsaved");
    c.set_media_ok(false);
    let out = c.on_new_note_with_date("2024-06-01");
    assert_eq!(out.error, Some(StoreError::IoFailure));
    assert_eq!(c.active_note().unwrap().title, "A");
    assert!(c.is_dirty());
    c.set_media_ok(true);
    assert!(c.store().load("Note 2024-06-01").is_err());
}

#[test]
fn delete_active_dirty_note_bypasses_flush() {
    // Deleting the active dirty note always clears the session and never
    // writes the doomed file: its pending changes are discarded.
    let mut c = controller_with(&[("A", "alpha"), ("B", "beta")]);
    c.on_select(Some("A"));
    let h = c.on_edit("doomed changes").scheduled_timer.unwrap();
    let out = c.on_delete("A");
    assert_eq!(out.cancelled_timer, Some(h));
    assert!(out.refresh_list);
    assert_eq!(out.editor_text.as_deref(), Some(""));
    assert_eq!(out.status, Some(Status::Ready));
    assert!(c.active_note().is_none());
    assert_eq!(c.pending_handle(), None);
    assert_eq!(c.store().load("A").unwrap_err(), StoreError::NotFound);
    // A stray fire of the cancelled timer must not resurrect the file.
    c.on_autosave_fire(h);
    assert_eq!(c.store().load("A").unwrap_err(), StoreError::NotFound);
    assert_eq!(c.store().load("B").unwrap().content, "beta");
}

#[test]
fn delete_other_note_keeps_session() {
    let mut c = controller_with(&[("A", "alpha"), ("B", "beta")]);
    c.on_select(Some("A"));
    c.on_edit("typing");
    let out = c.on_delete("B");
    assert!(out.refresh_list);
    assert_eq!(out.cancelled_timer, None);
    assert_eq!(c.active_note().unwrap().title, "A");
    assert!(c.is_dirty());
    assert!(c.pending_handle().is_some());
}

#[test]
fn rename_active_note_follows_title() {
    let mut c = controller_with(&[("A", "alpha")]);
    c.on_select(Some("A"));
    c.on_edit("latest text");
    let out = c.on_rename("A", "Renamed");
    assert_eq!(out.error, None);
    assert_eq!(out.status, Some(Status::Renamed));
    assert_eq!(out.select_row.as_deref(), Some("Renamed"));
    assert_eq!(out.window_title, Some(Some("Renamed".to_string())));
    assert_eq!(c.active_note().unwrap().title, "Renamed");
    // The dirty copy was flushed before the rename.
    assert!(!c.is_dirty());
    assert_eq!(c.store().load("Renamed").unwrap().content, "latest text");
}

#[test]
fn rename_rejects_collision_and_reports() {
    let mut c = controller_with(&[("A", "alpha"), ("B", "beta")]);
    c.on_select(Some("A"));
    let out = c.on_rename("A", "B");
    assert_eq!(out.error, Some(StoreError::TitleCollision));
    assert_eq!(c.active_note().unwrap().title, "A");
    assert_eq!(c.store().load("B").unwrap().content, "beta");
}

#[test]
fn rename_to_same_title_never_collides_with_itself() {
    let mut c = controller_with(&[("A", "alpha")]);
    c.on_select(Some("A"));
    let out = c.on_rename("A", "A");
    assert_eq!(out.error, None);
    assert_eq!(out.status, Some(Status::Renamed));
    assert_eq!(c.active_note().unwrap().title, "A");
    assert_eq!(c.store().load("A").unwrap().content, "alpha");
}

#[test]
fn save_now_flushes_on_demand() {
    let mut c = controller_with(&[("A", "alpha")]);
    c.on_select(Some("A"));
    let h = c.on_edit("typed").scheduled_timer.unwrap();
    let out = c.save_now();
    assert_eq!(out.cancelled_timer, Some(h));
    assert_eq!(out.status, Some(Status::Saved));
    assert!(out.refresh_list);
    assert!(!c.is_dirty());
    assert_eq!(c.store().load("A").unwrap().content, "typed");
    let quiet = c.save_now();
    assert_eq!(quiet.status, None);
    assert!(!quiet.refresh_list);
}

#[test]
fn save_now_failure_keeps_dirty_and_reports() {
    let mut c = controller_with(&[("A", "alpha")]);
    c.on_select(Some("A"));
    let h = c.on_edit("typed").scheduled_timer.unwrap();
    c.set_media_ok(false);
    let out = c.save_now();
    assert_eq!(out.error, Some(StoreError::IoFailure));
    assert_eq!(out.cancelled_timer, Some(h));
    assert!(c.is_dirty());
    c.set_media_ok(true);
    assert_eq!(c.store().load("A").unwrap().content, "alpha");
}

#[test]
fn rename_of_missing_note_reports_not_found() {
    let mut c = controller_with(&[("A", "alpha")]);
    let out = c.on_rename("ghost", "anything");
    assert_eq!(out.error, Some(StoreError::NotFound));
    assert_eq!(c.store().count(), 1);
}

#[test]
fn first_line_scenario_autorename_wordcount_autosave() {
    // Create a dated note, type a first line longer than 50 characters:
    // the title follows the first 47 characters plus "...", the word
    // count is reported, and after the quiet period the store holds the
    // typed text verbatim with the dirty flag cleared.
    let typed = "Hello world this is a longer first line used as a title candidate";
    let expected_title = "Hello world this is a longer first line used as...";
    let mut c = controller_with(&[]);
    c.on_new_note_with_date("2024-06-01");
    assert_eq!(c.active_note().unwrap().title, "Note 2024-06-01");
    let out = c.on_edit(typed);
    assert_eq!(out.window_title, Some(Some(expected_title.to_string())));
    assert_eq!(out.word_count, Some(13));
    assert_eq!(c.active_note().unwrap().title, expected_title);
    let h = out.scheduled_timer.unwrap();
    let fired = c.on_autosave_fire(h);
    assert_eq!(fired.status, Some(Status::AutoSaved));
    assert!(!c.is_dirty());
    assert_eq!(c.store().load(expected_title).unwrap().content, typed);
    assert_eq!(c.store().load("Note 2024-06-01").unwrap_err(), StoreError::NotFound);
}

#[test]
fn autorename_skips_user_titled_notes() {
    let mut c = controller_with(&[("My own title", "old")]);
    c.on_select(Some("My own title"));
    let out = c.on_edit("Completely different first line");
    assert_eq!(out.window_title, None);
    assert_eq!(c.active_note().unwrap().title, "My own title");
}

#[test]
fn autorename_swallows_collisions() {
    let mut c = controller_with(&[("Taken name", "x")]);
    c.on_new_note_with_date("2024-06-01");
    let out = c.on_edit("Taken name");
    // The suggested title is already in use: the rename is best-effort
    // and silently skipped, but the edit still schedules an auto-save.
    assert_eq!(out.window_title, None);
    assert_eq!(out.error, None);
    assert!(out.scheduled_timer.is_some());
    assert_eq!(c.active_note().unwrap().title, "Note 2024-06-01");
}
