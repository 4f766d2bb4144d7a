//! The note store: the collection of persisted notes, keyed by title, kept
//! sorted by recency. It models the notes directory: one entry per file,
//! the title standing for the file name without its extension, the content
//! for the file's text. Writes go through a medium that can be marked as
//! failing, which is how a front end accounts for disk errors.

use vstd::prelude::*;
use vstd::string::StrSliceExecFns;
use vstd::string::StringExecFns;

use crate::text::is_blank;
use crate::text::is_blank_str;
use crate::text::str_eq;
use crate::text::title_candidate;
use crate::text::title_from_content;
use crate::text::default_title;
use crate::text::is_default_title;
use crate::text::title_for;
use crate::text::make_title;
use crate::text::lemma_title_for_injective;

verus! {

/// The ways a store operation can fail.
#[derive(Clone, Copy, Debug, PartialEq, Eq, Structural)]
pub enum StoreError {
    /// The underlying medium refused a read or write.
    IoFailure,
    /// A title was empty (nothing but whitespace).
    EmptyTitle,
    /// A different note already carries the requested title.
    TitleCollision,
    /// No note carries the given title.
    NotFound,
    /// A file name could not be decoded as text; only a front end's
    /// directory scan produces it.
    InvalidTitle,
}

/// A note: its title (the identity key), its full text, and the logical
/// time of its last write, which orders the note list by recency.
#[derive(Debug)]
pub struct Note {
    pub title: String,
    pub content: String,
    pub modified_time: u64,
}

/// The mathematical image of a note.
#[verifier::ext_equal]
pub ghost struct NoteV {
    pub title: Seq<char>,
    pub content: Seq<char>,
    pub modified_time: int,
}

impl View for Note {
    type V = NoteV;

    open spec fn view(&self) -> NoteV {
        NoteV {
            title: self.title@,
            content: self.content@,
            modified_time: self.modified_time as int,
        }
    }
}

impl Clone for Note {
    fn clone(&self) -> (r: Self)
        ensures
            r@ == self@,
    {
        Note {
            title: self.title.clone(),
            content: self.content.clone(),
            modified_time: self.modified_time,
        }
    }
}

impl Note {
    /// Whether the note counts as empty: its content is nothing but
    /// whitespace.
    pub fn is_empty(&self) -> (r: bool)
        ensures
            r == is_blank(self@.content),
    {
        is_blank_str(self.content.as_str())
    }

    /// The title this note's content suggests, as `title_candidate`
    /// describes: the first non-blank line, trimmed and capped at 50
    /// characters; nothing when that line is shorter than 3 characters or
    /// every line is blank.
    pub fn generate_title_from_content(&self) -> (r: Option<String>)
        ensures
            match r {
                Some(t) => title_candidate(self@.content) == Some(t@),
                None => title_candidate(self@.content) is None,
            },
    {
        title_from_content(self.content.as_str())
    }

    /// Whether this note still carries an auto-generated date-based title
    /// (it begins with `"Note 20"`).
    pub fn has_default_title(&self) -> (r: bool)
        ensures
            r == default_title(self@.title),
    {
        is_default_title(self.title.as_str())
    }
}

/// The mathematical image of the store: the notes in list order, the
/// logical clock that stamps writes, and the health of the medium.
#[verifier::ext_equal]
pub ghost struct StoreV {
    pub notes: Seq<NoteV>,
    pub clock: int,
    pub media_ok: bool,
}

impl StoreV {
    /// Whether some note carries the title `t`.
    pub open spec fn has_title(self, t: Seq<char>) -> bool {
        exists|i: int| 0 <= i < self.notes.len() && self.notes[i].title == t
    }

    /// The position of the note carrying `t`; meaningful when `has_title`
    /// holds, and unique under `wf`.
    pub open spec fn idx_of(self, t: Seq<char>) -> int {
        choose|i: int| 0 <= i < self.notes.len() && self.notes[i].title == t
    }

    /// The note carrying `t`.
    pub open spec fn note_at(self, t: Seq<char>) -> NoteV {
        self.notes[self.idx_of(t)]
    }

    /// Well-formedness: titles are unique and non-blank, the list is
    /// strictly ordered by descending write time, and every write time
    /// precedes the clock.
    pub open spec fn wf(self) -> bool {
        &&& forall|i: int, j: int|
            0 <= i < j < self.notes.len() ==> self.notes[i].title != self.notes[j].title
        &&& forall|i: int, j: int|
            0 <= i < j < self.notes.len() ==> self.notes[i].modified_time
                > self.notes[j].modified_time
        &&& forall|i: int| 0 <= i < self.notes.len() ==> self.notes[i].modified_time < self.clock
        &&& forall|i: int| 0 <= i < self.notes.len() ==> !is_blank(self.notes[i].title)
    }
}

/// `notes` with the note carrying `t` taken out, if one does.
pub open spec fn without_title(s: StoreV, t: Seq<char>) -> Seq<NoteV> {
    if s.has_title(t) {
        s.notes.remove(s.idx_of(t))
    } else {
        s.notes
    }
}

/// What a successful write of `content` under `title` does: the note moves
/// to the front carrying the new content, stamped with the clock, and the
/// clock advances.
pub open spec fn save_spec(s: StoreV, title: Seq<char>, content: Seq<char>) -> StoreV {
    StoreV {
        notes: seq![
            NoteV { title: title, content: content, modified_time: s.clock },
        ] + without_title(s, title),
        clock: s.clock + 1,
        media_ok: s.media_ok,
    }
}

/// What a successful rename does: the note keeps its place, content and
/// write time, and only its title changes.
pub open spec fn rename_spec(s: StoreV, old_title: Seq<char>, new_title: Seq<char>) -> StoreV {
    StoreV {
        notes: s.notes.update(
            s.idx_of(old_title),
            NoteV { title: new_title, ..s.note_at(old_title) },
        ),
        ..s
    }
}

/// What a successful delete does: the note disappears; nothing else moves.
pub open spec fn delete_spec(s: StoreV, title: Seq<char>) -> StoreV {
    StoreV { notes: without_title(s, title), ..s }
}

/// The persisted collection of notes. Writes are stamped by a logical
/// clock, so the newest write always carries the greatest time and the
/// list stays sorted by recency.
pub struct Store {
    notes: Vec<Note>,
    clock: u64,
    media_ok: bool,
}

impl View for Store {
    type V = StoreV;

    closed spec fn view(&self) -> StoreV {
        StoreV {
            notes: Seq::new(self.notes@.len(), |i: int| self.notes@[i]@),
            clock: self.clock as int,
            media_ok: self.media_ok,
        }
    }
}

impl Store {
    /// An empty store over a healthy medium.
    pub fn new() -> (s: Store)
        ensures
            s@.wf(),
            s@.notes.len() == 0,
            s@.clock == 0,
            s@.media_ok,
    {
        Store { notes: Vec::new(), clock: 0, media_ok: true }
    }

    /// Marks the medium as healthy or failing; subsequent operations that
    /// touch it succeed or fail accordingly. A front end reports the
    /// outcome of its mirror writes here.
    pub fn set_media_ok(&mut self, ok: bool)
        ensures
            final(self)@ == (StoreV { media_ok: ok, ..old(self)@ }),
    {
        self.media_ok = ok;
    }

    /// Whether the medium is currently healthy.
    pub fn media_ok(&self) -> (r: bool)
        ensures
            r == self@.media_ok,
    {
        self.media_ok
    }

    /// The number of notes in the store.
    pub fn count(&self) -> (r: usize)
        ensures
            r == self@.notes.len(),
    {
        self.notes.len()
    }

    /// The logical clock: the stamp the next write will carry.
    pub fn clock(&self) -> (r: u64)
        ensures
            r == self@.clock,
    {
        self.clock
    }

    /// Finds the position of the note carrying `title`.
    fn find(&self, title: &str) -> (r: Option<usize>)
        ensures
            match r {
                Some(i) => i < self@.notes.len() && self@.notes[i as int].title == title@
                    && self@.has_title(title@),
                None => !self@.has_title(title@),
            },
            self@.wf() ==> (r matches Some(i) ==> i as int == self@.idx_of(title@)),
    {
        let n = self.notes.len();
        let mut i: usize = 0;
        while i < n
            invariant
                0 <= i <= n,
                n == self@.notes.len(),
                forall|j: int| 0 <= j < i ==> self@.notes[j].title != title@,
            decreases n - i,
        {
            if str_eq(self.notes[i].title.as_str(), title) {
                proof {
                    assert(self@.notes[i as int].title == title@);
                    assert(self@.has_title(title@));
                    if self@.wf() {
                        let k = self@.idx_of(title@);
                        assert(0 <= k < self@.notes.len() && self@.notes[k].title == title@);
                        assert(k == i);
                    }
                }
                return Some(i);
            }
            i = i + 1;
        }
        None
    }

    /// Creates an empty note under `title`, the way creating the file
    /// would: a note that already carries the title is truncated. Rejects
    /// blank titles; fails when the medium does.
    pub fn create(&mut self, title: &str) -> (r: Result<Note, StoreError>)
        requires
            old(self)@.wf(),
            old(self)@.clock < u64::MAX,
        ensures
            final(self)@.wf(),
            is_blank(title@) ==> (r matches Err(e) && e == StoreError::EmptyTitle && final(self)@
                == old(self)@),
            !is_blank(title@) && !old(self)@.media_ok ==> (r matches Err(e) && e
                == StoreError::IoFailure && final(self)@ == old(self)@),
            !is_blank(title@) && old(self)@.media_ok ==> (r matches Ok(n) && n@ == (NoteV {
                title: title@,
                content: Seq::empty(),
                modified_time: old(self)@.clock,
            }) && final(self)@ == save_spec(old(self)@, title@, Seq::empty())),
    {
        if is_blank_str(title) {
            return Err(StoreError::EmptyTitle);
        }
        if !self.media_ok {
            return Err(StoreError::IoFailure);
        }
        let mt = self.write(title, "");
        proof {
            reveal_strlit("");
            assert(""@ =~= Seq::<char>::empty());
        }
        Ok(Note { title: String::from_str(title), content: String::new(), modified_time: mt })
    }

    /// Loads the note carrying `title`: a copy of its text and write time.
    pub fn load(&self, title: &str) -> (r: Result<Note, StoreError>)
        ensures
            !self@.media_ok ==> (r matches Err(e) && e == StoreError::IoFailure),
            self@.media_ok && !self@.has_title(title@) ==> (r matches Err(e) && e
                == StoreError::NotFound),
            self@.media_ok && self@.has_title(title@) && self@.wf() ==> (r matches Ok(n) && n@
                == self@.note_at(title@)),
    {
        if !self.media_ok {
            return Err(StoreError::IoFailure);
        }
        match self.find(title) {
            Some(i) => Ok(self.notes[i].clone()),
            None => Err(StoreError::NotFound),
        }
    }

    /// The one place that writes: takes out any note carrying `title`,
    /// puts the new text at the front stamped with the clock, and advances
    /// the clock.
    fn write(&mut self, title: &str, content: &str) -> (mt: u64)
        requires
            old(self)@.wf(),
            old(self)@.clock < u64::MAX,
            old(self)@.media_ok,
            !is_blank(title@),
        ensures
            final(self)@.wf(),
            mt == old(self)@.clock,
            final(self)@ == save_spec(old(self)@, title@, content@),
    {
        let mt = self.clock;
        match self.find(title) {
            Some(i) => {
                self.notes.remove(i);
                proof {
                    assert(self@.notes =~= without_title(old(self)@, title@));
                }
            },
            None => {
                proof {
                    assert(self@.notes =~= without_title(old(self)@, title@));
                }
            },
        }
        let note = Note {
            title: String::from_str(title),
            content: String::from_str(content),
            modified_time: mt,
        };
        self.notes.insert(0, note);
        self.clock = self.clock + 1;
        proof {
            assert(final(self)@ =~= save_spec(old(self)@, title@, content@));
            lemma_save_wf(old(self)@, title@, content@);
        }
        mt
    }

    /// Overwrites (or recreates) the note carrying `title` with `content`,
    /// refreshing its write time; returns the new write time. Fails when
    /// the medium does; rejects blank titles.
    pub fn save(&mut self, title: &str, content: &str) -> (r: Result<u64, StoreError>)
        requires
            old(self)@.wf(),
            old(self)@.clock < u64::MAX,
        ensures
            final(self)@.wf(),
            is_blank(title@) ==> (r matches Err(e) && e == StoreError::EmptyTitle && final(self)@
                == old(self)@),
            !is_blank(title@) && !old(self)@.media_ok ==> (r matches Err(e) && e
                == StoreError::IoFailure && final(self)@ == old(self)@),
            !is_blank(title@) && old(self)@.media_ok ==> (r matches Ok(mt) && mt == old(self)@.clock && final(self)@ == save_spec(old(self)@, title@, content@)),
    {
        if is_blank_str(title) {
            return Err(StoreError::EmptyTitle);
        }
        if !self.media_ok {
            return Err(StoreError::IoFailure);
        }
        Ok(self.write(title, content))
    }

    /// Renames the note carrying `old_title` to `new_title`: rejects blank
    /// titles, rejects a title another note already carries, and otherwise
    /// changes only that note's title, keeping its place and write time.
    /// Renaming a note to its own title succeeds and changes nothing.
    pub fn rename(&mut self, old_title: &str, new_title: &str) -> (r: Result<(), StoreError>)
        requires
            old(self)@.wf(),
        ensures
            final(self)@.wf(),
            is_blank(new_title@) ==> (r matches Err(e) && e == StoreError::EmptyTitle && final(self)@ == old(self)@),
            !is_blank(new_title@) && new_title@ != old_title@ && old(self)@.has_title(new_title@)
                ==> (r matches Err(e) && e == StoreError::TitleCollision && final(self)@ == old(self)@),
            !is_blank(new_title@) && (new_title@ == old_title@ || !old(self)@.has_title(
                new_title@,
            )) && !old(self)@.media_ok ==> (r matches Err(e) && e == StoreError::IoFailure
                && final(self)@ == old(self)@),
            !is_blank(new_title@) && (new_title@ == old_title@ || !old(self)@.has_title(
                new_title@,
            )) && old(self)@.media_ok && !old(self)@.has_title(old_title@) ==> (r matches Err(e)
                && e == StoreError::NotFound && final(self)@ == old(self)@),
            !is_blank(new_title@) && (new_title@ == old_title@ || !old(self)@.has_title(
                new_title@,
            )) && old(self)@.media_ok && old(self)@.has_title(old_title@) ==> (r matches Ok(u)
                && final(self)@ == rename_spec(old(self)@, old_title@, new_title@)),
    {
        if is_blank_str(new_title) {
            return Err(StoreError::EmptyTitle);
        }
        if !str_eq(old_title, new_title) {
            if let Some(_) = self.find(new_title) {
                return Err(StoreError::TitleCollision);
            }
        }
        if !self.media_ok {
            return Err(StoreError::IoFailure);
        }
        match self.find(old_title) {
            None => Err(StoreError::NotFound),
            Some(i) => {
                let mut note = self.notes.remove(i);
                note.title = String::from_str(new_title);
                self.notes.insert(i, note);
                proof {
                    assert(final(self)@ =~= rename_spec(old(self)@, old_title@, new_title@));
                    lemma_rename_wf(old(self)@, old_title@, new_title@);
                }
                Ok(())
            },
        }
    }

    /// Removes the note carrying `title`. Fails when the medium does or
    /// when no note carries the title; nothing else moves.
    pub fn delete(&mut self, title: &str) -> (r: Result<(), StoreError>)
        requires
            old(self)@.wf(),
        ensures
            final(self)@.wf(),
            !old(self)@.media_ok ==> (r matches Err(e) && e == StoreError::IoFailure && final(self)@ == old(self)@),
            old(self)@.media_ok && !old(self)@.has_title(title@) ==> (r matches Err(e) && e
                == StoreError::NotFound && final(self)@ == old(self)@),
            old(self)@.media_ok && old(self)@.has_title(title@) ==> (r matches Ok(u) && final(self)@ == delete_spec(old(self)@, title@)),
    {
        if !self.media_ok {
            return Err(StoreError::IoFailure);
        }
        match self.find(title) {
            None => Err(StoreError::NotFound),
            Some(i) => {
                self.notes.remove(i);
                proof {
                    assert(final(self)@ =~= delete_spec(old(self)@, title@));
                    lemma_delete_wf(old(self)@, title@);
                }
                Ok(())
            },
        }
    }

    /// All notes, most recently written first. The internal order already
    /// is the recency order, so this is a copy of the list: a note always
    /// stands before every note with a strictly earlier write time.
    pub fn list_all(&self) -> (r: Vec<Note>)
        ensures
            r@.len() == self@.notes.len(),
            forall|i: int| 0 <= i < r@.len() ==> r@[i]@ == self@.notes[i],
            self@.wf() ==> forall|i: int, j: int|
                0 <= i < j < r@.len() ==> r@[i]@.modified_time > r@[j]@.modified_time,
    {
        let mut out: Vec<Note> = Vec::new();
        let n = self.notes.len();
        let mut i: usize = 0;
        while i < n
            invariant
                0 <= i <= n,
                n == self@.notes.len(),
                out@.len() == i,
                forall|j: int| 0 <= j < i ==> out@[j]@ == self@.notes[j],
            decreases n - i,
        {
            out.push(self.notes[i].clone());
            i = i + 1;
        }
        proof {
            if self@.wf() {
                assert forall|a: int, b: int|
                    0 <= a < b < out@.len() implies out@[a]@.modified_time
                    > out@[b]@.modified_time by {
                    assert(out@[a]@ == self@.notes[a]);
                    assert(out@[b]@ == self@.notes[b]);
                }
            }
        }
        out
    }

    /// The first free generated title for `date`: `"Note {date}"`, or
    /// `"Note {date} (n)"` for the smallest n from 2 up that no note
    /// carries.
    pub fn unique_title_for_date(&self, date: &str) -> (r: String)
        requires
            self@.wf(),
            self@.notes.len() + 1 < usize::MAX,
        ensures
            !self@.has_title(r@),
            r@ == fresh_title(self@, date@),
            exists|n: nat|
                1 <= n && r@ == title_for(date@, n) && (forall|m: nat|
                    1 <= m < n ==> self@.has_title(title_for(date@, m))),
    {
        let mut n: usize = 1;
        loop
            invariant
                1 <= n <= self@.notes.len() + 1,
                self@.wf(),
                self@.notes.len() + 1 < usize::MAX,
                forall|m: nat| 1 <= m < n ==> self@.has_title(title_for(date@, m)),
            decreases self@.notes.len() + 2 - n,
        {
            let cand = make_title(date, n as u64);
            match self.find(cand.as_str()) {
                None => {
                    proof {
                        lemma_fresh_title_is(self@, date@, n as nat);
                    }
                    return cand;
                },
                Some(_) => {
                    proof {
                        assert(forall|m: nat|
                            1 <= m <= n ==> self@.has_title(title_for(date@, m)));
                        lemma_titles_pigeonhole(self@, date@, n as nat);
                    }
                    n = n + 1;
                },
            }
        }
    }

    /// A free generated title for today's local date, as
    /// `unique_title_for_date` builds it.
    pub fn generate_unique_title(&self) -> (r: String)
        requires
            self@.wf(),
            self@.notes.len() + 1 < usize::MAX,
        ensures
            !self@.has_title(r@),
            exists|d: Seq<char>, n: nat|
                1 <= n && r@ == title_for(d, n) && (forall|m: nat|
                    1 <= m < n ==> self@.has_title(title_for(d, m))),
    {
        let date = crate::dates::today_date_string();
        self.unique_title_for_date(date.as_str())
    }

    /// Gives the note carrying `title` a fresh date-based title when its
    /// content is blank and it was last modified on a day before today:
    /// `modified_day` and `today_day` are day counts, `today_date` the
    /// date for the new title. Returns whether the title changed.
    pub fn retitle_stale_empty(
        &mut self,
        title: &str,
        modified_day: i32,
        today_day: i32,
        today_date: &str,
    ) -> (r: Result<bool, StoreError>)
        requires
            old(self)@.wf(),
            old(self)@.notes.len() + 1 < usize::MAX,
        ensures
            final(self)@.wf(),
            !old(self)@.has_title(title@) ==> (r matches Err(e) && e == StoreError::NotFound
                && final(self)@ == old(self)@),
            old(self)@.has_title(title@) && !is_blank(old(self)@.note_at(title@).content) ==> (
            r matches Ok(b) && !b && final(self)@ == old(self)@),
            old(self)@.has_title(title@) && is_blank(old(self)@.note_at(title@).content)
                && modified_day >= today_day ==> (r matches Ok(b) && !b && final(self)@ == old(self)@),
            old(self)@.has_title(title@) && is_blank(old(self)@.note_at(title@).content)
                && modified_day < today_day && !old(self)@.media_ok ==> (r matches Err(e) && e
                == StoreError::IoFailure && final(self)@ == old(self)@),
            old(self)@.has_title(title@) && is_blank(old(self)@.note_at(title@).content)
                && modified_day < today_day && old(self)@.media_ok ==> (r matches Ok(b) && b
                && exists|t2: Seq<char>|
                !old(self)@.has_title(t2) && !is_blank(t2) && final(self)@ == rename_spec(
                    old(self)@,
                    title@,
                    t2,
                )),
    {
        let i = match self.find(title) {
            None => {
                return Err(StoreError::NotFound);
            },
            Some(i) => i,
        };
        if !is_blank_str(self.notes[i].content.as_str()) {
            return Ok(false);
        }
        if modified_day >= today_day {
            return Ok(false);
        }
        let fresh = self.unique_title_for_date(today_date);
        proof {
            let n = choose|n: nat|
                1 <= n && fresh@ == title_for(today_date@, n) && (forall|m: nat|
                    1 <= m < n ==> self@.has_title(title_for(today_date@, m)));
            assert(fresh@[0] == 'N');
            assert(!is_blank(fresh@));
        }
        match self.rename(title, fresh.as_str()) {
            Ok(_) => Ok(true),
            Err(e) => Err(e),
        }
    }

    /// Gives the note carrying `title` a fresh date-based title when its
    /// content is blank and `modified_day`, its last-modified day count,
    /// lies before today. Whether today has arrived is read from the
    /// system clock, so which branch runs is not pinned here; each
    /// possible outcome is.
    pub fn update_title_if_empty_and_old(&mut self, title: &str, modified_day: i32) -> (r:
        Result<bool, StoreError>)
        requires
            old(self)@.wf(),
            old(self)@.notes.len() + 1 < usize::MAX,
        ensures
            final(self)@.wf(),
            !old(self)@.has_title(title@) ==> (r matches Err(e) && e == StoreError::NotFound
                && final(self)@ == old(self)@),
            old(self)@.has_title(title@) && !is_blank(old(self)@.note_at(title@).content) ==> (
            r matches Ok(b) && !b && final(self)@ == old(self)@),
            old(self)@.has_title(title@) && is_blank(old(self)@.note_at(title@).content) ==> ((
            r matches Ok(b) && !b && final(self)@ == old(self)@) || (r matches Err(e) && e
                == StoreError::IoFailure && !old(self)@.media_ok && final(self)@ == old(self)@)
                || (r matches Ok(b) && b && old(self)@.media_ok && exists|t2: Seq<char>|
                !old(self)@.has_title(t2) && !is_blank(t2) && final(self)@ == rename_spec(
                    old(self)@,
                    title@,
                    t2,
                ))),
    {
        let today_day = crate::dates::today_day_number();
        let today = crate::dates::today_date_string();
        self.retitle_stale_empty(title, modified_day, today_day, today.as_str())
    }
}

/// A rename preserves well-formedness when the new title is free (or is
/// the old one) and not blank.
proof fn lemma_rename_wf(s: StoreV, old_title: Seq<char>, new_title: Seq<char>)
    requires
        s.wf(),
        s.has_title(old_title),
        !is_blank(new_title),
        new_title == old_title || !s.has_title(new_title),
    ensures
        rename_spec(s, old_title, new_title).wf(),
{
    let k = s.idx_of(old_title);
    assert(0 <= k < s.notes.len() && s.notes[k].title == old_title);
    let r = rename_spec(s, old_title, new_title);
    assert forall|i: int, j: int| 0 <= i < j < r.notes.len() implies r.notes[i].title
        != r.notes[j].title by {
        if i == k {
            assert(r.notes[j] == s.notes[j]);
            if s.notes[j].title == new_title {
                assert(s.has_title(new_title));
            }
        } else if j == k {
            assert(r.notes[i] == s.notes[i]);
            if s.notes[i].title == new_title {
                assert(s.has_title(new_title));
            }
        }
    }
}

/// Removing a note preserves well-formedness.
proof fn lemma_delete_wf(s: StoreV, title: Seq<char>)
    requires
        s.wf(),
        s.has_title(title),
    ensures
        delete_spec(s, title).wf(),
{
    let k = s.idx_of(title);
    assert(0 <= k < s.notes.len() && s.notes[k].title == title);
    let w = without_title(s, title);
    assert(forall|j: int| 0 <= j < w.len() ==> w[j] == s.notes[if j < k {
        j
    } else {
        j + 1
    }]);
}

/// Whether `n` is the least index whose generated title for `date` is
/// free in `s`.
pub open spec fn is_least_free(s: StoreV, date: Seq<char>, n: nat) -> bool {
    &&& 1 <= n
    &&& !s.has_title(title_for(date, n))
    &&& forall|m: nat| 1 <= m < n ==> s.has_title(title_for(date, m))
}

/// The first free generated title for `date` in `s`.
pub open spec fn fresh_title(s: StoreV, date: Seq<char>) -> Seq<char> {
    title_for(date, choose|n: nat| is_least_free(s, date, n))
}

/// The least free index is unique, so any witness pins `fresh_title`.
pub proof fn lemma_fresh_title_is(s: StoreV, date: Seq<char>, n: nat)
    requires
        is_least_free(s, date, n),
    ensures
        fresh_title(s, date) == title_for(date, n),
{
    let n2 = choose|k: nat| is_least_free(s, date, k);
    assert(is_least_free(s, date, n2));
    if n < n2 {
        assert(s.has_title(title_for(date, n)));
    } else if n2 < n {
        assert(s.has_title(title_for(date, n2)));
    }
}

/// The generated titles for one date, from the first to the n-th.
spec fn cand_set(date: Seq<char>, n: nat) -> Set<Seq<char>> {
    Set::new(|t: Seq<char>| exists|m: nat| 1 <= m <= n && t == title_for(date, m))
}

/// There are exactly n of them, the indices being readable off the titles.
proof fn lemma_cand_set_card(date: Seq<char>, n: nat)
    ensures
        cand_set(date, n).finite(),
        cand_set(date, n).len() == n,
    decreases n,
{
    if n == 0 {
        assert(cand_set(date, 0) =~= Set::<Seq<char>>::empty());
    } else {
        lemma_cand_set_card(date, (n - 1) as nat);
        assert(!cand_set(date, (n - 1) as nat).contains(title_for(date, n))) by {
            if cand_set(date, (n - 1) as nat).contains(title_for(date, n)) {
                let m = choose|m: nat|
                    1 <= m <= n - 1 && title_for(date, n) == title_for(date, m);
                lemma_title_for_injective(date, m, n);
            }
        }
        assert(cand_set(date, n) =~= cand_set(date, (n - 1) as nat).insert(title_for(date, n)));
    }
}

/// When the first n generated titles for a date are all taken, the store
/// holds at least n notes: the titles are pairwise distinct and each
/// belongs to some note.
proof fn lemma_titles_pigeonhole(s: StoreV, date: Seq<char>, n: nat)
    requires
        s.wf(),
        forall|m: nat| 1 <= m <= n ==> s.has_title(title_for(date, m)),
    ensures
        n <= s.notes.len(),
{
    broadcast use vstd::seq_lib::seq_to_set_is_finite;

    let titles = s.notes.map_values(|nv: NoteV| nv.title);
    titles.lemma_cardinality_of_set();
    lemma_cand_set_card(date, n);
    assert forall|t: Seq<char>| cand_set(date, n).contains(t) implies titles.to_set().contains(
        t,
    ) by {
        let m = choose|m: nat| 1 <= m <= n && t == title_for(date, m);
        assert(s.has_title(title_for(date, m)));
        let i = s.idx_of(title_for(date, m));
        assert(0 <= i < s.notes.len() && s.notes[i].title == t);
        assert(titles[i] == t);
        assert(titles.contains(t));
    }
    vstd::set_lib::lemma_len_subset(cand_set(date, n), titles.to_set());
}



/// In a well-formed store the note at position `i` is the one its own
/// title looks up.
pub proof fn lemma_idx_at(s: StoreV, i: int)
    requires
        s.wf(),
        0 <= i < s.notes.len(),
    ensures
        s.has_title(s.notes[i].title),
        s.idx_of(s.notes[i].title) == i,
        s.note_at(s.notes[i].title) == s.notes[i],
{
    assert(s.has_title(s.notes[i].title));
    let k = s.idx_of(s.notes[i].title);
    assert(0 <= k < s.notes.len() && s.notes[k].title == s.notes[i].title);
    assert(k == i);
}

/// A write preserves well-formedness, because the fresh stamp exceeds
/// every older one and the title was taken out first.
proof fn lemma_save_wf(s: StoreV, title: Seq<char>, content: Seq<char>)
    requires
        s.wf(),
        !is_blank(title),
    ensures
        save_spec(s, title, content).wf(),
{
    let w = without_title(s, title);
    if s.has_title(title) {
        let k = s.idx_of(title);
        assert(0 <= k < s.notes.len() && s.notes[k].title == title);
        assert(forall|j: int| 0 <= j < w.len() ==> w[j] == s.notes[if j < k {
            j
        } else {
            j + 1
        }]);
    }
    let r = save_spec(s, title, content);
    assert forall|i: int, j: int| 0 <= i < j < r.notes.len() implies r.notes[i].title
        != r.notes[j].title by {
        if i == 0 {
            assert(r.notes[j] == w[j - 1]);
        }
    }
    assert forall|i: int, j: int| 0 <= i < j < r.notes.len() implies r.notes[i].modified_time
        > r.notes[j].modified_time by {
        if i > 0 {
            assert(r.notes[i] == w[i - 1]);
            assert(r.notes[j] == w[j - 1]);
        } else {
            assert(r.notes[j] == w[j - 1]);
        }
    }
}

} // verus!
