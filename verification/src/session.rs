//! The active session controller: it owns the note bound to the editor,
//! tracks whether the buffer differs from disk, debounces auto-saves, and
//! flushes synchronously before any operation that would discard the
//! buffer. Every inbound event is a method; the outcome it returns tells
//! the view layer what to show, and the state change is pinned to a
//! transition function on the controller's mathematical image.

use vstd::prelude::*;
use vstd::string::StringExecFns;

use crate::sched::Scheduler;
use crate::sched::SchedV;
use crate::store::Note;
use crate::store::NoteV;
use crate::store::Store;
use crate::store::StoreV;
use crate::store::StoreError;
use crate::store::save_spec;
use crate::store::delete_spec;
use crate::store::fresh_title;
use crate::store::lemma_idx_at;
use crate::store::rename_spec;
use crate::text::is_blank;
use crate::text::word_count;
use crate::text::count_words;
use crate::text::default_title;
use crate::text::is_default_title;
use crate::text::title_candidate;
use crate::text::title_from_content;
use crate::text::lemma_title_candidate_props;
use crate::text::str_eq;
use crate::text::title_for;

verus! {

/// What the status line should read after a transition.
#[derive(Clone, Copy, Debug, PartialEq, Eq, Structural)]
pub enum Status {
    Ready,
    Saved,
    Editing,
    AutoSaved,
    AutoSaveFailed,
    LoadError,
    Renamed,
}

/// The working copy bound to the editor, and whether it differs from the
/// last successful save.
pub struct ActiveNote {
    pub note: Note,
    pub dirty: bool,
}

/// The mathematical image of the working copy.
#[verifier::ext_equal]
pub ghost struct ActiveV {
    pub note: NoteV,
    pub dirty: bool,
}

impl View for ActiveNote {
    type V = ActiveV;

    open spec fn view(&self) -> ActiveV {
        ActiveV { note: self.note@, dirty: self.dirty }
    }
}

/// The snapshot a scheduled auto-save will write, with the timer handle
/// that guards it.
pub struct PendingSave {
    pub handle: u64,
    pub title: String,
    pub content: String,
}

/// The mathematical image of the snapshot.
#[verifier::ext_equal]
pub ghost struct PendV {
    pub handle: int,
    pub title: Seq<char>,
    pub content: Seq<char>,
}

impl View for PendingSave {
    type V = PendV;

    open spec fn view(&self) -> PendV {
        PendV { handle: self.handle as int, title: self.title@, content: self.content@ }
    }
}

/// What the view layer should do after a transition: push text into the
/// editor, retitle the window (`Some(None)` resets it to the bare
/// application name), show a status, report a word count, rebuild the
/// list, select a row, stop or start the real debounce timer, or report
/// an error.
pub struct Outcome {
    pub editor_text: Option<String>,
    pub window_title: Option<Option<String>>,
    pub status: Option<Status>,
    pub word_count: Option<usize>,
    pub refresh_list: bool,
    pub select_row: Option<String>,
    pub cancelled_timer: Option<u64>,
    pub scheduled_timer: Option<u64>,
    pub error: Option<StoreError>,
}

/// The controller: the store, the timer registry, the working copy, and
/// the outstanding auto-save snapshot.
pub struct Controller {
    store: Store,
    sched: Scheduler,
    active: Option<ActiveNote>,
    pending: Option<PendingSave>,
}

/// The mathematical image of the controller.
#[verifier::ext_equal]
pub ghost struct CtrlV {
    pub store: StoreV,
    pub sched: SchedV,
    pub active: Option<ActiveV>,
    pub pending: Option<PendV>,
}

impl View for Controller {
    type V = CtrlV;

    closed spec fn view(&self) -> CtrlV {
        CtrlV {
            store: self.store@,
            sched: self.sched@,
            active: match self.active {
                Some(a) => Some(a@),
                None => None,
            },
            pending: match self.pending {
                Some(p) => Some(p@),
                None => None,
            },
        }
    }
}

impl CtrlV {
    /// The controller's invariants. The store is well-formed; the working
    /// copy mirrors a stored note (its stamp agrees, and its content too
    /// while it is clean); a pending auto-save snapshot always belongs to
    /// the working copy, carries its exact current content, exists only
    /// while the copy is dirty, and holds the one live timer handle; and
    /// no timer is live without a snapshot.
    pub open spec fn wf(self) -> bool {
        &&& self.store.wf()
        &&& match self.active {
            Some(a) => self.store.has_title(a.note.title) && a.note.modified_time
                == self.store.note_at(a.note.title).modified_time && (!a.dirty ==> a.note.content
                == self.store.note_at(a.note.title).content) && !is_blank(a.note.title),
            None => true,
        }
        &&& match self.pending {
            Some(p) => (self.active matches Some(a) && p.title == a.note.title && p.content
                == a.note.content && a.dirty) && self.sched.live == Some(p.handle),
            None => self.sched.live is None,
        }
        &&& match self.sched.live {
            Some(h) => h < self.sched.next_handle,
            None => true,
        }
    }

    /// Whether the editor buffer differs from the last successful save.
    pub open spec fn dirty(self) -> bool {
        self.active matches Some(a) && a.dirty
    }
}

/// The view of an optional borrowed title.
pub open spec fn opt_str_view(t: Option<&str>) -> Option<Seq<char>> {
    match t {
        Some(s) => Some(s@),
        None => None,
    }
}

/// Dropping the pending snapshot and its timer, everything else as it was.
pub open spec fn cancel_pending(c: CtrlV) -> CtrlV {
    CtrlV { pending: None, sched: SchedV { live: None, ..c.sched }, ..c }
}

/// Whether a flush has anything to write.
pub open spec fn flush_needed(c: CtrlV) -> bool {
    c.active matches Some(a) && a.dirty
}

/// Whether the flush subroutine would fail: there is something to write
/// and the medium refuses it.
pub open spec fn flush_fails(c: CtrlV) -> bool {
    flush_needed(c) && !c.store.media_ok
}

/// The flush subroutine: the timer is cancelled first in any case; then,
/// if the working copy is dirty and the medium accepts, its content is
/// written, its stamp refreshed and the dirty flag cleared. On failure
/// nothing but the timer changes.
pub open spec fn flush_step(c: CtrlV) -> CtrlV {
    let c1 = cancel_pending(c);
    if !flush_needed(c) || !c.store.media_ok {
        c1
    } else {
        let a = c.active->Some_0;
        CtrlV {
            store: save_spec(c.store, a.note.title, a.note.content),
            active: Some(
                ActiveV {
                    note: NoteV { modified_time: c.store.clock, ..a.note },
                    dirty: false,
                },
            ),
            ..c1
        }
    }
}

/// Selecting a row (or none): on a failed flush the transition aborts with
/// only the timer gone; otherwise the requested note becomes the working
/// copy, clean, or the session empties when nothing was requested or the
/// note cannot be loaded.
pub open spec fn select_step(c: CtrlV, target: Option<Seq<char>>) -> CtrlV {
    if flush_fails(c) {
        cancel_pending(c)
    } else {
        let c1 = flush_step(c);
        match target {
            None => CtrlV { active: None, ..c1 },
            Some(t) => {
                if c1.store.media_ok && c1.store.has_title(t) {
                    CtrlV {
                        active: Some(ActiveV { note: c1.store.note_at(t), dirty: false }),
                        ..c1
                    }
                } else {
                    CtrlV { active: None, ..c1 }
                }
            },
        }
    }
}

/// Whether selecting `t` ends with the note in the editor.
pub open spec fn select_loads(c: CtrlV, t: Seq<char>) -> bool {
    &&& !flush_fails(c)
    &&& c.store.media_ok
    &&& flush_step(c).store.has_title(t)
}

/// Whether an edit triggers the best-effort title-from-content rename:
/// the working copy still carries a default date-based title, the new
/// content suggests a title, and that title differs from the current one.
pub open spec fn auto_rename_applies(c: CtrlV, content: Seq<char>) -> bool {
    match c.active {
        Some(a) => default_title(a.note.title) && (title_candidate(content) matches Some(t) && t
            != a.note.title),
        None => false,
    }
}

/// Whether that rename also goes through: the medium accepts and no other
/// note carries the suggested title.
pub open spec fn auto_rename_ok(c: CtrlV, content: Seq<char>) -> bool {
    &&& auto_rename_applies(c, content)
    &&& c.store.media_ok
    &&& !c.store.has_title(title_candidate(content)->Some_0)
}

/// One user edit of the buffer: without a working copy nothing changes;
/// otherwise the copy takes the new content and becomes dirty, the old
/// timer is cancelled, the title-from-content rename is applied when it
/// applies and goes through, and a fresh timer is scheduled whose snapshot
/// is exactly the new title and content.
pub open spec fn edit_step(c: CtrlV, content: Seq<char>) -> CtrlV {
    match c.active {
        None => c,
        Some(a0) => {
            let renamed = auto_rename_ok(c, content);
            let new_title = if renamed {
                title_candidate(content)->Some_0
            } else {
                a0.note.title
            };
            let store1 = if renamed {
                rename_spec(c.store, a0.note.title, new_title)
            } else {
                c.store
            };
            let h = c.sched.next_handle;
            CtrlV {
                store: store1,
                sched: SchedV { next_handle: h + 1, live: Some(h) },
                active: Some(
                    ActiveV {
                        note: NoteV {
                            title: new_title,
                            content: content,
                            modified_time: a0.note.modified_time,
                        },
                        dirty: true,
                    },
                ),
                pending: Some(PendV { handle: h, title: new_title, content: content }),
            }
        },
    }
}

/// A timer going off: a dead handle does nothing. A live one retires, and
/// its snapshot is written; when the write succeeds and the working copy
/// still matches the snapshot, the copy is stamped and clean. When the
/// write fails, the copy stays dirty and only the timer is gone.
pub open spec fn fire_step(c: CtrlV, h: int) -> CtrlV {
    if c.sched.live != Some(h) {
        c
    } else {
        let c1 = cancel_pending(c);
        match c.pending {
            Some(p) => {
                if c.store.media_ok {
                    let guard = c.active matches Some(a) && a.note.content == p.content
                        && a.note.title == p.title;
                    CtrlV {
                        store: save_spec(c.store, p.title, p.content),
                        active: if guard {
                            Some(
                                ActiveV {
                                    note: NoteV {
                                        modified_time: c.store.clock,
                                        ..c.active->Some_0.note
                                    },
                                    dirty: false,
                                },
                            )
                        } else {
                            c.active
                        },
                        ..c1
                    }
                } else {
                    c1
                }
            },
            None => c1,
        }
    }
}

/// Requesting a new note: on a failed flush the operation aborts with
/// only the timer gone. Otherwise a brand-new empty note is created under
/// the first free generated title for the date — an existing empty note
/// is never reused — and becomes the clean working copy; when the medium
/// refuses the creation, the session stays as the flush left it.
pub open spec fn new_note_step(c: CtrlV, date: Seq<char>) -> CtrlV {
    if flush_fails(c) {
        cancel_pending(c)
    } else {
        let c1 = flush_step(c);
        if c1.store.media_ok {
            let t = fresh_title(c1.store, date);
            CtrlV {
                store: save_spec(c1.store, t, Seq::empty()),
                active: Some(
                    ActiveV {
                        note: NoteV {
                            title: t,
                            content: Seq::empty(),
                            modified_time: c1.store.clock,
                        },
                        dirty: false,
                    },
                ),
                ..c1
            }
        } else {
            c1
        }
    }
}

/// Deleting the note carrying `t`: nothing happens when the medium fails
/// or no note carries the title. Otherwise the note disappears, and when
/// it was the working copy the session empties and the timer is
/// cancelled — deliberately without any flush: deleting discards pending
/// changes, and the doomed file is never written.
pub open spec fn delete_step(c: CtrlV, t: Seq<char>) -> CtrlV {
    if !c.store.media_ok || !c.store.has_title(t) {
        c
    } else {
        let was_active = c.active matches Some(a) && a.note.title == t;
        CtrlV {
            store: delete_spec(c.store, t),
            active: if was_active {
                None
            } else {
                c.active
            },
            pending: if was_active {
                None
            } else {
                c.pending
            },
            sched: if was_active {
                SchedV { live: None, ..c.sched }
            } else {
                c.sched
            },
        }
    }
}

/// Whether an explicit rename must flush first: the note being renamed is
/// the dirty working copy.
pub open spec fn rename_needs_flush(c: CtrlV, o: Seq<char>) -> bool {
    c.active matches Some(a) && a.note.title == o && a.dirty
}

/// Whether that flush fails, aborting the rename.
pub open spec fn rename_aborts(c: CtrlV, o: Seq<char>) -> bool {
    rename_needs_flush(c, o) && !c.store.media_ok
}

/// The state the rename is attempted in: flushed when need be.
pub open spec fn rename_mid(c: CtrlV, o: Seq<char>) -> CtrlV {
    if rename_needs_flush(c, o) {
        flush_step(c)
    } else {
        c
    }
}

/// Whether the store accepts renaming `o` to `n` in state `c`.
pub open spec fn rename_ok(c: CtrlV, o: Seq<char>, n: Seq<char>) -> bool {
    &&& !is_blank(n)
    &&& n == o || !c.store.has_title(n)
    &&& c.store.media_ok
    &&& c.store.has_title(o)
}

/// An explicit, user-initiated rename of the note carrying `o` to `n`:
/// flush first when it is the dirty working copy, aborting on failure;
/// then rename in the store, and follow the title in the working copy
/// when it was the renamed note. On a store error nothing else changes.
pub open spec fn rename_step(c: CtrlV, o: Seq<char>, n: Seq<char>) -> CtrlV {
    if rename_aborts(c, o) {
        cancel_pending(c)
    } else {
        let c1 = rename_mid(c, o);
        if rename_ok(c1, o, n) {
            let retitled = c1.active matches Some(a) && a.note.title == o;
            CtrlV {
                store: rename_spec(c1.store, o, n),
                active: if retitled {
                    Some(
                        ActiveV {
                            note: NoteV { title: n, ..c1.active->Some_0.note },
                            dirty: c1.active->Some_0.dirty,
                        },
                    )
                } else {
                    c1.active
                },
                ..c1
            }
        } else {
            c1
        }
    }
}

/// The debounce delay: a scheduled auto-save fires after this many
/// milliseconds of quiet. The front end arms its real timer with it.
pub const AUTO_SAVE_DELAY_MS: u64 = 2000;

impl Controller {
    /// A controller around an existing store: no working copy, no timer.
    pub fn with_store(store: Store) -> (c: Controller)
        requires
            store@.wf(),
        ensures
            c@.wf(),
            c@.store == store@,
            c@.active is None,
            c@.pending is None,
            c@.sched.live is None,
    {
        Controller { store, sched: Scheduler::new(), active: None, pending: None }
    }

    /// A controller over an empty store.
    pub fn new() -> (c: Controller)
        ensures
            c@.wf(),
            c@.store.notes.len() == 0,
            c@.store.clock == 0,
            c@.store.media_ok,
            c@.active is None,
            c@.pending is None,
    {
        Controller {
            store: Store::new(),
            sched: Scheduler::new(),
            active: None,
            pending: None,
        }
    }

    /// The store, for listing and inspection.
    pub fn store(&self) -> (r: &Store)
        ensures
            r@ == self@.store,
    {
        &self.store
    }

    /// Marks the medium as healthy or failing, as `Store::set_media_ok`.
    pub fn set_media_ok(&mut self, ok: bool)
        requires
            old(self)@.wf(),
        ensures
            final(self)@.wf(),
            final(self)@ == (CtrlV { store: StoreV { media_ok: ok, ..old(self)@.store }, ..old(
                self,
            )@ }),
    {
        self.store.set_media_ok(ok);
        proof {
            let c0 = old(self)@;
            let c1 = self@;
            assert(c1.store.wf());
            match c0.active {
                Some(a) => {
                    let k = c0.store.idx_of(a.note.title);
                    assert(0 <= k < c0.store.notes.len() && c0.store.notes[k].title
                        == a.note.title);
                    lemma_idx_at(c1.store, k);
                    lemma_idx_at(c0.store, k);
                },
                None => {},
            }
        }
    }

    /// The flush subroutine shared by select, new-note and rename: cancel
    /// any timer, then write the working copy if it is dirty. Reports
    /// whether the state is clean (nothing was dirty, or the write
    /// succeeded).
    fn flush(&mut self) -> (ok: bool)
        requires
            old(self)@.wf(),
            old(self)@.store.clock < u64::MAX,
        ensures
            final(self)@ == flush_step(old(self)@),
            ok == !flush_fails(old(self)@),
            final(self)@.wf(),
    {
        let ghost c0 = self@;
        let h_opt: Option<u64> = match &self.pending {
            Some(p) => Some(p.handle),
            None => None,
        };
        match h_opt {
            Some(h) => {
                self.sched.cancel(h);
                self.pending = None;
            },
            None => {},
        }
        proof {
            assert(self@ =~~= cancel_pending(c0));
        }
        let dirty_now: bool = match &self.active {
            Some(a) => a.dirty,
            None => false,
        };
        if !dirty_now {
            proof {
                assert(self@ =~~= flush_step(c0));
            }
            return true;
        }
        let r = match &self.active {
            Some(a) => self.store.save(a.note.title.as_str(), a.note.content.as_str()),
            None => Err(StoreError::NotFound),
        };
        match r {
            Ok(mt) => {
                match &mut self.active {
                    Some(a) => {
                        a.note.modified_time = mt;
                        a.dirty = false;
                    },
                    None => {},
                }
                proof {
                    assert(self@ =~~= flush_step(c0));
                    lemma_idx_at(self@.store, 0);
                    assert(self@.wf());
                }
                true
            },
            Err(_) => {
                proof {
                    assert(self@ =~~= flush_step(c0));
                }
                false
            },
        }
    }

    /// The working copy, if a note is open in the editor.
    pub fn active_note(&self) -> (r: Option<&Note>)
        ensures
            match r {
                Some(n) => self@.active matches Some(a) && n@ == a.note,
                None => self@.active is None,
            },
    {
        match &self.active {
            Some(a) => Some(&a.note),
            None => None,
        }
    }

    /// Whether the editor buffer differs from the last successful save.
    pub fn is_dirty(&self) -> (r: bool)
        ensures
            r == self@.dirty(),
    {
        match &self.active {
            Some(a) => a.dirty,
            None => false,
        }
    }

    /// The handle of the outstanding auto-save timer, if one is armed.
    pub fn pending_handle(&self) -> (r: Option<u64>)
        ensures
            match r {
                Some(h) => self@.pending matches Some(p) && h as int == p.handle,
                None => self@.pending is None,
            },
    {
        match &self.pending {
            Some(p) => Some(p.handle),
            None => None,
        }
    }

    /// The editor buffer changed by a user edit (programmatic buffer
    /// replacements are not reported here). The word count is always
    /// recomputed; with no working copy nothing else happens. Otherwise
    /// the copy takes the new content and becomes dirty, the previous
    /// timer is cancelled, a default-titled note is best-effort renamed
    /// after its content, and a fresh auto-save is scheduled with a
    /// snapshot of exactly this content.
    pub fn on_edit(&mut self, content: &str) -> (r: Outcome)
        requires
            old(self)@.wf(),
            old(self)@.sched.next_handle < u64::MAX,
        ensures
            final(self)@.wf(),
            final(self)@ == edit_step(old(self)@, content@),
            r.word_count matches Some(wc) && wc == word_count(content@),
            r.error is None,
            !r.refresh_list,
            r.select_row is None,
            r.editor_text is None,
            old(self)@.active is None ==> (r.cancelled_timer is None && r.scheduled_timer
                is None && r.status is None && r.window_title is None),
            old(self)@.active is Some ==> ((match old(self)@.pending {
                Some(p) => r.cancelled_timer matches Some(h) && h as int == p.handle,
                None => r.cancelled_timer is None,
            }) && (r.scheduled_timer matches Some(h) && h as int == old(self)@.sched.next_handle)
                && r.status == Some(Status::Editing)),
            auto_rename_ok(old(self)@, content@) ==> (r.window_title matches Some(w)
                && w matches Some(x) && x@ == title_candidate(content@)->Some_0),
            !auto_rename_ok(old(self)@, content@) ==> r.window_title is None,
    {
        let ghost c0 = self@;
        let wc = count_words(content);
        if let None = &self.active {
            return Outcome {
                editor_text: None,
                window_title: None,
                status: None,
                word_count: Some(wc),
                refresh_list: false,
                select_row: None,
                cancelled_timer: None,
                scheduled_timer: None,
                error: None,
            };
        }
        let cancelled: Option<u64> = match &self.pending {
            Some(p) => Some(p.handle),
            None => None,
        };
        match cancelled {
            Some(h) => {
                self.sched.cancel(h);
                self.pending = None;
            },
            None => {},
        }
        proof {
            assert(self@ =~~= cancel_pending(c0));
        }
        match &mut self.active {
            Some(a) => {
                a.note.content = String::from_str(content);
                a.dirty = true;
            },
            None => {},
        }
        let suggestion: Option<String> = match &self.active {
            Some(a) => {
                if is_default_title(a.note.title.as_str()) {
                    match title_from_content(content) {
                        Some(cand) => {
                            if !str_eq(cand.as_str(), a.note.title.as_str()) {
                                Some(cand)
                            } else {
                                None
                            }
                        },
                        None => None,
                    }
                } else {
                    None
                }
            },
            None => None,
        };
        let mut new_window_title: Option<String> = None;
        match suggestion {
            Some(cand) => {
                proof {
                    lemma_title_candidate_props(content@);
                }
                let old_t: String = match &self.active {
                    Some(a) => a.note.title.clone(),
                    None => String::new(),
                };
                match self.store.rename(old_t.as_str(), cand.as_str()) {
                    Ok(_) => {
                        new_window_title = Some(cand.clone());
                        match &mut self.active {
                            Some(a) => {
                                a.note.title = cand;
                            },
                            None => {},
                        }
                    },
                    Err(_) => {},
                }
            },
            None => {},
        }
        let h = self.sched.schedule();
        let snap: (String, String) = match &self.active {
            Some(a) => (a.note.title.clone(), a.note.content.clone()),
            None => (String::new(), String::new()),
        };
        self.pending = Some(PendingSave { handle: h, title: snap.0, content: snap.1 });
        proof {
            let a0 = c0.active->Some_0;
            if auto_rename_ok(c0, content@) {
                let k = c0.store.idx_of(a0.note.title);
                assert(0 <= k < c0.store.notes.len() && c0.store.notes[k].title
                    == a0.note.title);
                lemma_idx_at(self@.store, k);
            }
            assert(self@ =~~= edit_step(c0, content@));
            assert(self@.wf());
        }
        Outcome {
            editor_text: None,
            window_title: match new_window_title {
                Some(t) => Some(Some(t)),
                None => None,
            },
            status: Some(Status::Editing),
            word_count: Some(wc),
            refresh_list: false,
            select_row: None,
            cancelled_timer: cancelled,
            scheduled_timer: Some(h),
            error: None,
        }
    }

    /// The debounce timer with `handle` went off. A handle that was
    /// cancelled (or already fired) does nothing. Otherwise the snapshot
    /// taken at scheduling time is written: on success the dirty flag
    /// clears, the stamp refreshes, and the list is reordered by recency;
    /// on failure the copy stays dirty, the failure shows only as a
    /// status, and the next edit or flush will retry.
    pub fn on_autosave_fire(&mut self, handle: u64) -> (r: Outcome)
        requires
            old(self)@.wf(),
            old(self)@.store.clock < u64::MAX,
        ensures
            final(self)@.wf(),
            final(self)@ == fire_step(old(self)@, handle as int),
            r.cancelled_timer is None,
            r.scheduled_timer is None,
            r.editor_text is None,
            r.window_title is None,
            r.word_count is None,
            r.error is None,
            old(self)@.sched.live != Some(handle as int) ==> (r.status is None
                && !r.refresh_list && r.select_row is None),
            old(self)@.sched.live == Some(handle as int) && old(self)@.store.media_ok ==> (
            r.status == Some(Status::AutoSaved) && r.refresh_list && (match old(self)@.pending {
                Some(p) => r.select_row matches Some(t) && t@ == p.title,
                None => true,
            })),
            old(self)@.sched.live == Some(handle as int) && !old(self)@.store.media_ok ==> (
            r.status == Some(Status::AutoSaveFailed) && !r.refresh_list && r.select_row
                is None),
    {
        let ghost c0 = self@;
        let live = self.sched.acknowledge_fire(handle);
        if !live {
            proof {
                assert(self@ =~~= fire_step(c0, handle as int));
            }
            return Outcome {
                editor_text: None,
                window_title: None,
                status: None,
                word_count: None,
                refresh_list: false,
                select_row: None,
                cancelled_timer: None,
                scheduled_timer: None,
                error: None,
            };
        }
        let snap: (String, String) = match &self.pending {
            Some(p) => (p.title.clone(), p.content.clone()),
            None => (String::new(), String::new()),
        };
        self.pending = None;
        let res = self.store.save(snap.0.as_str(), snap.1.as_str());
        match res {
            Ok(mt) => {
                let same: bool = match &self.active {
                    Some(a) => str_eq(a.note.content.as_str(), snap.1.as_str()) && str_eq(
                        a.note.title.as_str(),
                        snap.0.as_str(),
                    ),
                    None => false,
                };
                if same {
                    match &mut self.active {
                        Some(a) => {
                            a.note.modified_time = mt;
                            a.dirty = false;
                        },
                        None => {},
                    }
                }
                proof {
                    lemma_idx_at(self@.store, 0);
                    assert(self@ =~~= fire_step(c0, handle as int));
                    assert(self@.wf());
                }
                Outcome {
                    editor_text: None,
                    window_title: None,
                    status: Some(Status::AutoSaved),
                    word_count: None,
                    refresh_list: true,
                    select_row: Some(snap.0),
                    cancelled_timer: None,
                    scheduled_timer: None,
                    error: None,
                }
            },
            Err(_) => {
                proof {
                    assert(self@ =~~= fire_step(c0, handle as int));
                }
                Outcome {
                    editor_text: None,
                    window_title: None,
                    status: Some(Status::AutoSaveFailed),
                    word_count: None,
                    refresh_list: false,
                    select_row: None,
                    cancelled_timer: None,
                    scheduled_timer: None,
                    error: None,
                }
            },
        }
    }

    /// A save on demand: the flush subroutine with its outcome reported.
    /// Cancels any timer; writes the working copy if dirty. On success
    /// the list is refreshed (the saved note moved up) and its row
    /// reselected; on failure the error is reported and the copy stays
    /// dirty.
    pub fn save_now(&mut self) -> (r: Outcome)
        requires
            old(self)@.wf(),
            old(self)@.store.clock < u64::MAX,
        ensures
            final(self)@.wf(),
            final(self)@ == flush_step(old(self)@),
            (match old(self)@.pending {
                Some(p) => r.cancelled_timer matches Some(h) && h as int == p.handle,
                None => r.cancelled_timer is None,
            }),
            r.scheduled_timer is None,
            r.editor_text is None,
            r.window_title is None,
            r.word_count is None,
            flush_fails(old(self)@) ==> (r.error matches Some(e) && e == StoreError::IoFailure
                && r.status is None && !r.refresh_list && r.select_row is None),
            !flush_fails(old(self)@) && flush_needed(old(self)@) ==> (r.error is None
                && r.status == Some(Status::Saved) && r.refresh_list && (
            r.select_row matches Some(t) && t@ == old(self)@.active->Some_0.note.title)),
            !flush_needed(old(self)@) ==> (r.error is None && r.status is None
                && !r.refresh_list && r.select_row is None),
    {
        let was_dirty: bool = match &self.active {
            Some(a) => a.dirty,
            None => false,
        };
        let title: Option<String> = match &self.active {
            Some(a) => Some(a.note.title.clone()),
            None => None,
        };
        let cancelled: Option<u64> = match &self.pending {
            Some(p) => Some(p.handle),
            None => None,
        };
        let ok = self.flush();
        if !ok {
            Outcome {
                editor_text: None,
                window_title: None,
                status: None,
                word_count: None,
                refresh_list: false,
                select_row: None,
                cancelled_timer: cancelled,
                scheduled_timer: None,
                error: Some(StoreError::IoFailure),
            }
        } else if was_dirty {
            Outcome {
                editor_text: None,
                window_title: None,
                status: Some(Status::Saved),
                word_count: None,
                refresh_list: true,
                select_row: title,
                cancelled_timer: cancelled,
                scheduled_timer: None,
                error: None,
            }
        } else {
            Outcome {
                editor_text: None,
                window_title: None,
                status: None,
                word_count: None,
                refresh_list: false,
                select_row: None,
                cancelled_timer: cancelled,
                scheduled_timer: None,
                error: None,
            }
        }
    }

    /// The user picked a row (or cleared the selection). A dirty working
    /// copy is flushed first; if that write fails, the switch is aborted,
    /// the error reported, and nothing is loaded. Otherwise the requested
    /// note is loaded into the editor, or the editor is cleared.
    pub fn on_select(&mut self, target: Option<&str>) -> (r: Outcome)
        requires
            old(self)@.wf(),
            old(self)@.store.clock < u64::MAX,
        ensures
            final(self)@.wf(),
            final(self)@ == select_step(old(self)@, opt_str_view(target)),
            (match old(self)@.pending {
                Some(p) => r.cancelled_timer matches Some(h) && h as int == p.handle,
                None => r.cancelled_timer is None,
            }),
            r.scheduled_timer is None,
            flush_fails(old(self)@) ==> (r.error matches Some(e) && e == StoreError::IoFailure
                && r.editor_text is None && r.window_title is None && r.status is None
                && r.word_count is None && !r.refresh_list && r.select_row is None),
            !flush_fails(old(self)@) ==> (r.error is None && r.refresh_list == flush_needed(
                old(self)@,
            ) && r.select_row is None),
            !flush_fails(old(self)@) && target is None ==> (r.editor_text matches Some(t) && t@
                == Seq::<char>::empty() && r.window_title == Some(None::<String>)
                && r.status == Some(Status::Ready) && r.word_count == Some(0usize)),
            (match target {
                Some(ts) => {
                    &&& select_loads(old(self)@, ts@) ==> (r.editor_text matches Some(txt)
                        && txt@ == flush_step(old(self)@).store.note_at(ts@).content && (
                    r.window_title matches Some(w) && w matches Some(wt) && wt@ == ts@)
                        && r.status == Some(Status::Ready) && (r.word_count matches Some(wc)
                        && wc == word_count(txt@)))
                    &&& !flush_fails(old(self)@) && !select_loads(old(self)@, ts@) ==> (
                    r.editor_text matches Some(txt) && txt@ == Seq::<char>::empty()
                        && r.window_title == Some(None::<String>) && r.status == Some(
                        Status::LoadError,
                    ) && r.word_count is None)
                },
                None => true,
            }),
    {
        let ghost c0 = self@;
        let cancelled: Option<u64> = match &self.pending {
            Some(p) => Some(p.handle),
            None => None,
        };
        let was_dirty: bool = match &self.active {
            Some(a) => a.dirty,
            None => false,
        };
        let ok = self.flush();
        if !ok {
            return Outcome {
                editor_text: None,
                window_title: None,
                status: None,
                word_count: None,
                refresh_list: false,
                select_row: None,
                cancelled_timer: cancelled,
                scheduled_timer: None,
                error: Some(StoreError::IoFailure),
            };
        }
        match target {
            None => {
                self.active = None;
                proof {
                    assert(self@ =~~= select_step(c0, opt_str_view(target)));
                }
                Outcome {
                    editor_text: Some(String::new()),
                    window_title: Some(None),
                    status: Some(Status::Ready),
                    word_count: Some(0),
                    refresh_list: was_dirty,
                    select_row: None,
                    cancelled_timer: cancelled,
                    scheduled_timer: None,
                    error: None,
                }
            },
            Some(t) => {
                match self.store.load(t) {
                    Ok(note) => {
                        let wc = count_words(note.content.as_str());
                        let txt = note.content.clone();
                        let wt = String::from_str(t);
                        self.active = Some(ActiveNote { note, dirty: false });
                        proof {
                            assert(self@ =~~= select_step(c0, opt_str_view(target)));
                            assert(self@.wf());
                        }
                        Outcome {
                            editor_text: Some(txt),
                            window_title: Some(Some(wt)),
                            status: Some(Status::Ready),
                            word_count: Some(wc),
                            refresh_list: was_dirty,
                            select_row: None,
                            cancelled_timer: cancelled,
                            scheduled_timer: None,
                            error: None,
                        }
                    },
                    Err(_) => {
                        self.active = None;
                        proof {
                            assert(self@ =~~= select_step(c0, opt_str_view(target)));
                        }
                        Outcome {
                            editor_text: Some(String::new()),
                            window_title: Some(None),
                            status: Some(Status::LoadError),
                            word_count: None,
                            refresh_list: was_dirty,
                            select_row: None,
                            cancelled_timer: cancelled,
                            scheduled_timer: None,
                            error: None,
                        }
                    },
                }
            },
        }
    }

    /// The user asked for a new note. A dirty working copy is flushed
    /// first; if that write fails, nothing is created and the error is
    /// reported. Otherwise a brand-new empty note is created under the
    /// first free generated title for `date` and opened, clean, in the
    /// editor. An existing empty note is never reused.
    pub fn on_new_note_with_date(&mut self, date: &str) -> (r: Outcome)
        requires
            old(self)@.wf(),
            old(self)@.store.clock + 1 < u64::MAX,
            old(self)@.store.notes.len() + 1 < usize::MAX,
        ensures
            final(self)@.wf(),
            final(self)@ == new_note_step(old(self)@, date@),
            (match old(self)@.pending {
                Some(p) => r.cancelled_timer matches Some(h) && h as int == p.handle,
                None => r.cancelled_timer is None,
            }),
            r.scheduled_timer is None,
            flush_fails(old(self)@) ==> (r.error matches Some(e) && e == StoreError::IoFailure
                && r.editor_text is None && r.window_title is None && r.status is None
                && r.word_count is None && !r.refresh_list && r.select_row is None),
            !flush_fails(old(self)@) && !old(self)@.store.media_ok ==> (r.error matches Some(e)
                && e == StoreError::IoFailure && r.editor_text is None && r.window_title
                is None && r.status is None && r.word_count is None && !r.refresh_list
                && r.select_row is None),
            old(self)@.store.media_ok ==> (r.error is None && (r.editor_text matches Some(txt)
                && txt@ == Seq::<char>::empty()) && (r.window_title matches Some(w)
                && w matches Some(wt) && wt@ == fresh_title(flush_step(old(self)@).store, date@))
                && r.status == Some(Status::Ready) && r.word_count == Some(0usize)
                && r.refresh_list && (r.select_row matches Some(t) && t@ == fresh_title(
                flush_step(old(self)@).store,
                date@,
            )) && !flush_step(old(self)@).store.has_title(
                fresh_title(flush_step(old(self)@).store, date@),
            )),
    {
        let ghost c0 = self@;
        let cancelled: Option<u64> = match &self.pending {
            Some(p) => Some(p.handle),
            None => None,
        };
        let ok = self.flush();
        if !ok {
            return Outcome {
                editor_text: None,
                window_title: None,
                status: None,
                word_count: None,
                refresh_list: false,
                select_row: None,
                cancelled_timer: cancelled,
                scheduled_timer: None,
                error: Some(StoreError::IoFailure),
            };
        }
        let title = self.store.unique_title_for_date(date);
        proof {
            let n = choose|n: nat|
                1 <= n && title@ == title_for(date@, n) && (forall|m: nat|
                    1 <= m < n ==> self@.store.has_title(title_for(date@, m)));
            assert(title@[0] == 'N');
            assert(!is_blank(title@));
        }
        match self.store.create(title.as_str()) {
            Ok(note) => {
                let wt = title.clone();
                let st = title.clone();
                self.active = Some(ActiveNote { note, dirty: false });
                proof {
                    lemma_idx_at(self@.store, 0);
                    assert(self@ =~~= new_note_step(c0, date@));
                    assert(self@.wf());
                }
                Outcome {
                    editor_text: Some(String::new()),
                    window_title: Some(Some(wt)),
                    status: Some(Status::Ready),
                    word_count: Some(0),
                    refresh_list: true,
                    select_row: Some(st),
                    cancelled_timer: cancelled,
                    scheduled_timer: None,
                    error: None,
                }
            },
            Err(e) => {
                proof {
                    assert(self@ =~~= new_note_step(c0, date@));
                }
                Outcome {
                    editor_text: None,
                    window_title: None,
                    status: None,
                    word_count: None,
                    refresh_list: false,
                    select_row: None,
                    cancelled_timer: cancelled,
                    scheduled_timer: None,
                    error: Some(e),
                }
            },
        }
    }

    /// The user asked for a new note, titled for today's local date. The
    /// date comes from the system clock, so the title is not pinned here;
    /// everything else is: the transition is `new_note_step` for some
    /// date, and on success the working copy is a brand-new, clean, empty
    /// note whose title no note carried before.
    pub fn on_new_note(&mut self) -> (r: Outcome)
        requires
            old(self)@.wf(),
            old(self)@.store.clock + 1 < u64::MAX,
            old(self)@.store.notes.len() + 1 < usize::MAX,
        ensures
            final(self)@.wf(),
            exists|d: Seq<char>| final(self)@ == new_note_step(old(self)@, d),
            (match old(self)@.pending {
                Some(p) => r.cancelled_timer matches Some(h) && h as int == p.handle,
                None => r.cancelled_timer is None,
            }),
            r.scheduled_timer is None,
            flush_fails(old(self)@) ==> (r.error matches Some(e) && e == StoreError::IoFailure
                && r.editor_text is None && final(self)@ == cancel_pending(old(self)@)),
            !flush_fails(old(self)@) && !old(self)@.store.media_ok ==> (r.error matches Some(e)
                && e == StoreError::IoFailure),
            old(self)@.store.media_ok ==> (r.error is None && r.status == Some(Status::Ready)
                && r.refresh_list && (final(self)@.active matches Some(a) && !a.dirty
                && a.note.content == Seq::<char>::empty() && !flush_step(
                old(self)@,
            ).store.has_title(a.note.title) && (r.select_row matches Some(t) && t@
                == a.note.title) && (r.editor_text matches Some(txt) && txt@
                == Seq::<char>::empty()))),
    {
        let ghost c0 = self@;
        let date = crate::dates::today_date_string();
        let r = self.on_new_note_with_date(date.as_str());
        proof {
            assert(final(self)@ == new_note_step(c0, date@));
        }
        r
    }

    /// The user confirmed deleting the note carrying `title` (not
    /// necessarily the active one). The note's file is removed; when it
    /// was the working copy, the session empties and the timer is
    /// cancelled — deliberately without a flush, so the doomed file is
    /// never written. When the note cannot be loaded or removed, nothing
    /// changes.
    pub fn on_delete(&mut self, title: &str) -> (r: Outcome)
        requires
            old(self)@.wf(),
        ensures
            final(self)@.wf(),
            final(self)@ == delete_step(old(self)@, title@),
            r.scheduled_timer is None,
            r.error is None,
            !old(self)@.store.media_ok || !old(self)@.store.has_title(title@) ==> (
            r.editor_text is None && r.window_title is None && r.status is None && r.word_count
                is None && !r.refresh_list && r.select_row is None && r.cancelled_timer
                is None),
            old(self)@.store.media_ok && old(self)@.store.has_title(title@) && (old(
                self,
            )@.active matches Some(a) && a.note.title == title@) ==> ((
            r.editor_text matches Some(txt) && txt@ == Seq::<char>::empty())
                && r.window_title == Some(None::<String>) && r.status == Some(Status::Ready)
                && r.word_count == Some(0usize) && r.refresh_list && r.select_row is None && (
            match old(self)@.pending {
                Some(p) => r.cancelled_timer matches Some(h) && h as int == p.handle,
                None => r.cancelled_timer is None,
            })),
            old(self)@.store.media_ok && old(self)@.store.has_title(title@) && !(old(
                self,
            )@.active matches Some(a) && a.note.title == title@) ==> (r.editor_text is None
                && r.window_title is None && r.status is None && r.word_count is None
                && r.refresh_list && r.select_row is None && r.cancelled_timer is None),
    {
        let ghost c0 = self@;
        match self.store.delete(title) {
            Err(_) => {
                proof {
                    assert(self@ =~~= delete_step(c0, title@));
                }
                Outcome {
                    editor_text: None,
                    window_title: None,
                    status: None,
                    word_count: None,
                    refresh_list: false,
                    select_row: None,
                    cancelled_timer: None,
                    scheduled_timer: None,
                    error: None,
                }
            },
            Ok(_) => {
                let was_active: bool = match &self.active {
                    Some(a) => str_eq(a.note.title.as_str(), title),
                    None => false,
                };
                if was_active {
                    let cancelled: Option<u64> = match &self.pending {
                        Some(p) => Some(p.handle),
                        None => None,
                    };
                    match cancelled {
                        Some(h) => {
                            self.sched.cancel(h);
                        },
                        None => {},
                    }
                    self.pending = None;
                    self.active = None;
                    proof {
                        assert(self@ =~~= delete_step(c0, title@));
                    }
                    Outcome {
                        editor_text: Some(String::new()),
                        window_title: Some(None),
                        status: Some(Status::Ready),
                        word_count: Some(0),
                        refresh_list: true,
                        select_row: None,
                        cancelled_timer: cancelled,
                        scheduled_timer: None,
                        error: None,
                    }
                } else {
                    proof {
                        assert(self@ =~~= delete_step(c0, title@));
                        let d = delete_step(c0, title@);
                        match c0.active {
                            Some(a) => {
                                let k = c0.store.idx_of(title@);
                                assert(0 <= k < c0.store.notes.len() && c0.store.notes[k].title
                                    == title@);
                                let j = c0.store.idx_of(a.note.title);
                                assert(0 <= j < c0.store.notes.len() && c0.store.notes[j].title
                                    == a.note.title);
                                assert(j != k);
                                let j2: int = if j < k {
                                    j
                                } else {
                                    j - 1
                                };
                                assert(d.store.notes[j2] == c0.store.notes[j]);
                                lemma_idx_at(d.store, j2);
                                lemma_idx_at(c0.store, j);
                            },
                            None => {},
                        }
                        assert(self@.wf());
                    }
                    Outcome {
                        editor_text: None,
                        window_title: None,
                        status: None,
                        word_count: None,
                        refresh_list: true,
                        select_row: None,
                        cancelled_timer: None,
                        scheduled_timer: None,
                        error: None,
                    }
                }
            },
        }
    }

    /// The user asked to rename the note carrying `old_title` to
    /// `new_title`. When that note is the dirty working copy it is
    /// flushed first, and the rename is aborted if the flush fails. Store
    /// errors (empty title, collision, a failing medium, a vanished note)
    /// are reported and change nothing else. On success the working copy
    /// follows the new title when it was the renamed note.
    pub fn on_rename(&mut self, old_title: &str, new_title: &str) -> (r: Outcome)
        requires
            old(self)@.wf(),
            old(self)@.store.clock < u64::MAX,
        ensures
            final(self)@.wf(),
            final(self)@ == rename_step(old(self)@, old_title@, new_title@),
            r.scheduled_timer is None,
            r.editor_text is None,
            r.word_count is None,
            (match old(self)@.pending {
                Some(p) => rename_needs_flush(old(self)@, old_title@)
                    ==> (r.cancelled_timer matches Some(h) && h as int == p.handle),
                None => true,
            }),
            !rename_needs_flush(old(self)@, old_title@) ==> r.cancelled_timer is None,
            rename_aborts(old(self)@, old_title@) ==> (r.error matches Some(e) && e
                == StoreError::IoFailure && r.window_title is None && r.status is None
                && !r.refresh_list && r.select_row is None),
            !rename_aborts(old(self)@, old_title@) && !rename_ok(
                rename_mid(old(self)@, old_title@),
                old_title@,
                new_title@,
            ) ==> (r.error is Some && r.window_title is None && r.status is None
                && !r.refresh_list && r.select_row is None),
            !rename_aborts(old(self)@, old_title@) && rename_ok(
                rename_mid(old(self)@, old_title@),
                old_title@,
                new_title@,
            ) ==> (r.error is None && r.status == Some(Status::Renamed) && r.refresh_list && (
            r.select_row matches Some(t) && t@ == new_title@) && ((rename_mid(
                old(self)@,
                old_title@,
            ).active matches Some(a) && a.note.title == old_title@) ==> (
            r.window_title matches Some(w) && w matches Some(wt) && wt@ == new_title@))),
    {
        let ghost c0 = self@;
        let needs_flush: bool = match &self.active {
            Some(a) => a.dirty && str_eq(a.note.title.as_str(), old_title),
            None => false,
        };
        let cancelled: Option<u64> = match &self.pending {
            Some(p) => Some(p.handle),
            None => None,
        };
        if needs_flush {
            let ok = self.flush();
            if !ok {
                return Outcome {
                    editor_text: None,
                    window_title: None,
                    status: None,
                    word_count: None,
                    refresh_list: false,
                    select_row: None,
                    cancelled_timer: cancelled,
                    scheduled_timer: None,
                    error: Some(StoreError::IoFailure),
                };
            }
        }
        let ghost c1 = rename_mid(c0, old_title@);
        match self.store.rename(old_title, new_title) {
            Ok(_) => {
                let was_active: bool = match &self.active {
                    Some(a) => str_eq(a.note.title.as_str(), old_title),
                    None => false,
                };
                let mut wt: Option<String> = None;
                if was_active {
                    match &mut self.active {
                        Some(a) => {
                            a.note.title = String::from_str(new_title);
                        },
                        None => {},
                    }
                    wt = Some(String::from_str(new_title));
                }
                proof {
                    assert(self@ =~~= rename_step(c0, old_title@, new_title@));
                    let d = rename_step(c0, old_title@, new_title@);
                    let k = c1.store.idx_of(old_title@);
                    assert(0 <= k < c1.store.notes.len() && c1.store.notes[k].title
                        == old_title@);
                    match c1.active {
                        Some(a) => {
                            if a.note.title == old_title@ {
                                lemma_idx_at(d.store, k);
                                lemma_idx_at(c1.store, k);
                            } else {
                                let j = c1.store.idx_of(a.note.title);
                                assert(0 <= j < c1.store.notes.len() && c1.store.notes[j].title
                                    == a.note.title);
                                assert(j != k);
                                assert(d.store.notes[j] == c1.store.notes[j]);
                                lemma_idx_at(d.store, j);
                                lemma_idx_at(c1.store, j);
                            }
                        },
                        None => {},
                    }
                    assert(self@.wf());
                }
                Outcome {
                    editor_text: None,
                    window_title: match wt {
                        Some(t) => Some(Some(t)),
                        None => None,
                    },
                    status: Some(Status::Renamed),
                    word_count: None,
                    refresh_list: true,
                    select_row: Some(String::from_str(new_title)),
                    cancelled_timer: if needs_flush {
                        cancelled
                    } else {
                        None
                    },
                    scheduled_timer: None,
                    error: None,
                }
            },
            Err(e) => {
                proof {
                    assert(self@ =~~= rename_step(c0, old_title@, new_title@));
                }
                Outcome {
                    editor_text: None,
                    window_title: None,
                    status: None,
                    word_count: None,
                    refresh_list: false,
                    select_row: None,
                    cancelled_timer: if needs_flush {
                        cancelled
                    } else {
                        None
                    },
                    scheduled_timer: None,
                    error: Some(e),
                }
            },
        }
    }
}

} // verus!
