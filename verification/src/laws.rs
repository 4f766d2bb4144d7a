//! The guarantees the controller is built for, stated over the transition
//! functions that the exec methods are pinned to.

use vstd::prelude::*;

use crate::session::CtrlV;
use crate::session::PendV;
use crate::session::edit_step;
use crate::session::fire_step;
use crate::session::select_step;
use crate::session::delete_step;
use crate::session::rename_step;
use crate::session::rename_ok;
use crate::session::rename_needs_flush;
use crate::session::cancel_pending;
use crate::store::StoreV;
use crate::store::save_spec;
use crate::store::delete_spec;
use crate::text::default_title;
use crate::text::is_blank;

verus! {

/// A run of edits, each applied to the state the previous one left.
pub open spec fn edits_fold(c: CtrlV, edits: Seq<Seq<char>>) -> CtrlV
    decreases edits.len(),
{
    if edits.len() == 0 {
        c
    } else {
        edits_fold(edit_step(c, edits[0]), edits.drop_first())
    }
}

/// Through a run of edits to a user-titled working copy, the store never
/// changes — no write happens — while the working copy and the one pending
/// snapshot always carry the content of the latest edit, guarded by the
/// latest timer handle.
proof fn lemma_edits_keep(c: CtrlV, edits: Seq<Seq<char>>)
    requires
        c.active is Some,
        !default_title(c.active->Some_0.note.title),
        edits.len() >= 1,
    ensures
        ({
            let c1 = edits_fold(c, edits);
            &&& c1.store == c.store
            &&& c1.active matches Some(a1) && a1.note.title == c.active->Some_0.note.title
                && a1.note.content == edits.last() && a1.dirty
            &&& c1.pending == Some(
                PendV {
                    handle: c1.sched.next_handle - 1,
                    title: c.active->Some_0.note.title,
                    content: edits.last(),
                },
            )
            &&& c1.sched.live == Some(c1.sched.next_handle - 1)
        }),
    decreases edits.len(),
{
    let c2 = edit_step(c, edits[0]);
    if edits.len() == 1 {
        assert(edits_fold(c2, edits.drop_first()) == c2);
    } else {
        lemma_edits_keep(c2, edits.drop_first());
        assert(edits.drop_first().last() == edits.last());
    }
}

/// Debounce coalescing: for any run of edits to the same user-titled note
/// within one quiet period, no write happens while the edits arrive, and
/// when the one surviving timer fires, exactly one write happens — the
/// clock advances by exactly one — carrying the content of the last edit.
pub proof fn lemma_debounce_coalescing(c: CtrlV, edits: Seq<Seq<char>>)
    requires
        c.active is Some,
        !default_title(c.active->Some_0.note.title),
        edits.len() >= 1,
        c.store.media_ok,
    ensures
        ({
            let c1 = edits_fold(c, edits);
            let c2 = fire_step(c1, c1.sched.next_handle - 1);
            &&& c1.store == c.store
            &&& c2.store == save_spec(
                c.store,
                c.active->Some_0.note.title,
                edits.last(),
            )
            &&& c2.store.clock == c.store.clock + 1
            &&& c2.store.notes[0].content == edits.last()
            &&& c2.active matches Some(a) && !a.dirty
            &&& c2.pending is None
        }),
{
    lemma_edits_keep(c, edits);
}

/// Through any run of edits — auto-renames included — the clock never
/// moves (no content is ever written), the medium flag is untouched, and
/// the working copy and its one pending snapshot carry the content of the
/// latest edit under the copy's current title.
proof fn lemma_edits_keep_any(c: CtrlV, edits: Seq<Seq<char>>)
    requires
        c.active is Some,
        edits.len() >= 1,
    ensures
        ({
            let c1 = edits_fold(c, edits);
            &&& c1.store.clock == c.store.clock
            &&& c1.store.media_ok == c.store.media_ok
            &&& c1.active matches Some(a1) && a1.note.content == edits.last() && a1.dirty
            &&& c1.pending == Some(
                PendV {
                    handle: c1.sched.next_handle - 1,
                    title: c1.active->Some_0.note.title,
                    content: edits.last(),
                },
            )
            &&& c1.sched.live == Some(c1.sched.next_handle - 1)
        }),
    decreases edits.len(),
{
    let c2 = edit_step(c, edits[0]);
    if edits.len() == 1 {
        assert(edits_fold(c2, edits.drop_first()) == c2);
    } else {
        lemma_edits_keep_any(c2, edits.drop_first());
        assert(edits.drop_first().last() == edits.last());
    }
}

/// Debounce coalescing holds for auto-renamed notes too: whatever titles
/// a run of edits moves the working copy through, nothing is written
/// while they arrive, and the surviving timer's fire performs exactly one
/// write — the clock advances by one — putting the content of the last
/// edit at the top of the store.
pub proof fn lemma_debounce_single_write(c: CtrlV, edits: Seq<Seq<char>>)
    requires
        c.active is Some,
        edits.len() >= 1,
        c.store.media_ok,
    ensures
        ({
            let c1 = edits_fold(c, edits);
            let c2 = fire_step(c1, c1.sched.next_handle - 1);
            &&& c1.store.clock == c.store.clock
            &&& c2.store.clock == c.store.clock + 1
            &&& c2.store.notes[0].content == edits.last()
            &&& c2.active matches Some(a) && !a.dirty
            &&& c2.pending is None
        }),
{
    lemma_edits_keep_any(c, edits);
}

/// Flush before switch: when note A is dirty and its storage fails on
/// write, selecting note B aborts the switch — A stays the working copy
/// with its dirty flag set, and the store is untouched, so B's content
/// was never loaded and A's changes were not lost. (The matching exec
/// contract adds that nothing is pushed into the editor.)
pub proof fn lemma_flush_before_switch(c: CtrlV, b: Seq<char>)
    requires
        c.dirty(),
        !c.store.media_ok,
    ensures
        select_step(c, Some(b)).active == c.active,
        select_step(c, Some(b)).store == c.store,
        select_step(c, Some(b)).dirty(),
{
}

/// Switching away from a dirty note writes it exactly once — the flush;
/// the clock advances by one, the note's latest content is on top of the
/// store, and its timer handle is gone, so no second write can follow.
pub proof fn lemma_switch_flushes_once(c: CtrlV, b: Seq<char>)
    requires
        c.dirty(),
        c.store.media_ok,
    ensures
        select_step(c, Some(b)).store.clock == c.store.clock + 1,
        select_step(c, Some(b)).pending is None,
        select_step(c, Some(b)).sched.live is None,
        select_step(c, Some(b)).store.notes[0].title == c.active->Some_0.note.title,
        select_step(c, Some(b)).store.notes[0].content == c.active->Some_0.note.content,
{
}

/// Recency ordering: a write puts the saved note first, and its stamp is
/// strictly newer than every other note's, so the list that `list_all`
/// returns places it before any note with a strictly earlier write time.
pub proof fn lemma_recency_ordering(s: StoreV, t: Seq<char>, content: Seq<char>)
    requires
        s.wf(),
    ensures
        save_spec(s, t, content).notes[0].title == t,
        forall|i: int|
            1 <= i < save_spec(s, t, content).notes.len() ==> save_spec(
                s,
                t,
                content,
            ).notes[0].modified_time > #[trigger] save_spec(s, t, content).notes[i].modified_time,
{
    let s2 = save_spec(s, t, content);
    assert forall|i: int| 1 <= i < s2.notes.len() implies s2.notes[0].modified_time > #[trigger] s2.notes[i].modified_time by {
        if s.has_title(t) {
            let k = s.idx_of(t);
            assert(0 <= k < s.notes.len());
            assert(s2.notes[i] == s.notes.remove(k)[i - 1]);
        } else {
            assert(s2.notes[i] == s.notes[i - 1]);
        }
    }
}

/// Delete bypasses flush: deleting the working copy always empties the
/// session and retires the timer, whether or not the copy was dirty, and
/// the clock shows that nothing was ever written — the doomed note's
/// pending changes are discarded, not flushed.
pub proof fn lemma_delete_bypasses_flush(c: CtrlV, t: Seq<char>)
    requires
        c.wf(),
        c.store.media_ok,
        c.active matches Some(a) && a.note.title == t,
    ensures
        delete_step(c, t).active is None,
        delete_step(c, t).pending is None,
        delete_step(c, t).sched.live is None,
        delete_step(c, t).store.clock == c.store.clock,
        !delete_step(c, t).store.has_title(t),
        delete_step(c, t).store == delete_spec(c.store, t),
{
    let k = c.store.idx_of(t);
    assert(0 <= k < c.store.notes.len() && c.store.notes[k].title == t);
    let d = delete_step(c, t);
    assert(d.store.notes == c.store.notes.remove(k));
    if d.store.has_title(t) {
        let j = d.store.idx_of(t);
        assert(0 <= j < d.store.notes.len() && d.store.notes[j].title == t);
        if j < k {
            assert(d.store.notes[j] == c.store.notes[j]);
        } else {
            assert(d.store.notes[j] == c.store.notes[j + 1]);
        }
        assert(false);
    }
}

/// Idempotent rename: renaming a clean note to its own title is a no-op
/// that succeeds — it never manufactures a collision against itself.
pub proof fn lemma_rename_self_noop(c: CtrlV, t: Seq<char>)
    requires
        c.wf(),
        c.store.media_ok,
        c.store.has_title(t),
        !is_blank(t),
        !rename_needs_flush(c, t),
    ensures
        rename_ok(c, t, t),
        rename_step(c, t, t) == c,
{
    let k = c.store.idx_of(t);
    assert(0 <= k < c.store.notes.len() && c.store.notes[k].title == t);
    assert(c.store.notes.update(k, c.store.notes[k]) =~= c.store.notes);
    assert(rename_step(c, t, t) =~~= c);
}

} // verus!
