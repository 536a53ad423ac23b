use vstd::prelude::*;

use crate::content::{
    spliced, text_read, valid_read_range, valid_write_range, Content, Selection, TextChange,
    TextRun, MAX_OFFSET,
};
use crate::error::TsError;

verus! {

/// The read bit of the host's lock flags (`TS_LF_READ`).
pub const LOCK_READ: u32 = 2;

/// The read and write bits of the host's lock flags (`TS_LF_READWRITE`).
pub const LOCK_READ_WRITE: u32 = 6;

/// The kind of document lock the host asked for.
#[derive(Clone, Copy, Debug, PartialEq, Eq, Structural)]
pub enum LockMode {
    Read,
    ReadWrite,
}

/// The lock that a set of host lock flags asks for, if any.
pub open spec fn lock_mode_of(flags: u32) -> Option<LockMode> {
    if flags & LOCK_READ_WRITE == LOCK_READ_WRITE {
        Some(LockMode::ReadWrite)
    } else if flags & LOCK_READ == LOCK_READ {
        Some(LockMode::Read)
    } else {
        None
    }
}

/// The subscribers told of a lock that `flags` ask for: all of them, in
/// order, or nobody where the flags ask for no known lock.
pub open spec fn notified(sinks: Seq<u64>, flags: u32) -> Seq<u64> {
    if lock_mode_of(flags) is Some {
        sinks
    } else {
        Seq::empty()
    }
}

/// A lock requested while nobody is subscribed notifies nobody.
pub proof fn lemma_lock_without_subscribers(sinks: Seq<u64>, flags: u32)
    requires
        sinks.len() == 0,
    ensures
        notified(sinks, flags) == Seq::<u64>::empty(),
{
    assert(sinks =~= Seq::<u64>::empty());
}

/// Subscribing `id` and then unsubscribing it leaves exactly the
/// subscribers there were before, other than `id`; from an empty set it
/// leaves the set empty, and a later lock notifies nobody.
pub proof fn lemma_subscribe_then_unsubscribe(
    before: Seq<u64>,
    subscribed: Seq<u64>,
    after: Seq<u64>,
    id: u64,
    flags: u32,
)
    requires
        forall|x: u64| subscribed.contains(x) <==> (before.contains(x) || x == id),
        forall|x: u64| after.contains(x) <==> (subscribed.contains(x) && x != id),
    ensures
        forall|x: u64| after.contains(x) <==> (before.contains(x) && x != id),
        before.len() == 0 ==> after == Seq::<u64>::empty(),
        before.len() == 0 ==> notified(after, flags) == Seq::<u64>::empty(),
{
    if before.len() == 0 {
        if after.len() > 0 {
            assert(after.contains(after[0]));
            assert(!before.contains(after[0]));
        }
        assert(after =~= Seq::<u64>::empty());
    }
}

/// The selection after `SetSelection(selections)`: the one given when
/// exactly one is, else the current one.
pub open spec fn selection_after_set(current: Selection, selections: Seq<Selection>) -> Selection {
    if selections.len() == 1 {
        selections[0]
    } else {
        current
    }
}

/// Setting a single selection and reading it back gives that selection;
/// setting any other number of selections keeps the current one.
pub proof fn lemma_selection_round_trip(current: Selection, s: Selection, others: Seq<Selection>)
    requires
        others.len() != 1,
    ensures
        selection_after_set(current, seq![s]) == s,
        selection_after_set(current, others) == current,
{
}

/// Decodes host lock flags into the lock they ask for.
pub fn lock_mode_from_flags(flags: u32) -> (r: Option<LockMode>)
    ensures
        r == lock_mode_of(flags),
{
    if flags & LOCK_READ_WRITE == LOCK_READ_WRITE {
        Some(LockMode::ReadWrite)
    } else if flags & LOCK_READ == LOCK_READ {
        Some(LockMode::Read)
    } else {
        None
    }
}

/// A granted lock: the subscribers to notify, in order, and the mode to
/// report to each. The state lock is not held while they are notified.
#[derive(Debug, PartialEq, Eq)]
pub struct LockGrant {
    pub mode: Option<LockMode>,
    pub notify: Vec<u64>,
}

/// The document's change-notification capabilities.
#[derive(Clone, Copy, Debug, PartialEq, Eq, Structural)]
pub struct Status {
    pub dynamic_flags: u32,
    pub static_flags: u32,
}

/// A screen rectangle.
#[derive(Clone, Copy, Debug, PartialEq, Eq, Structural)]
pub struct Rect {
    pub left: i32,
    pub top: i32,
    pub right: i32,
    pub bottom: i32,
}

/// The text-store side of one document context: its content, the
/// subscribers to lock grants (by identity), and the edit-session token.
#[derive(Debug)]
pub struct DocumentAdapter {
    pub content: Content,
    pub sinks: Vec<u64>,
    pub edit_cookie: Option<u32>,
}

/// `s` without the entry at `i`, where that entry occurs nowhere else,
/// holds exactly the other entries of `s`, once each.
proof fn lemma_remove_unique(s: Seq<u64>, i: int)
    requires
        0 <= i < s.len(),
        s.no_duplicates(),
    ensures
        s.remove(i).no_duplicates(),
        forall|x: u64| s.remove(i).contains(x) <==> (s.contains(x) && x != s[i]),
{
    let t = s.remove(i);
    assert forall|x: u64| s.contains(x) && x != s[i] implies t.contains(x) by {
        let j = choose|j: int| 0 <= j < s.len() && s[j] == x;
        if j < i {
            assert(t[j] == x);
        } else {
            assert(t[j - 1] == x);
        }
    }
    assert forall|x: u64| t.contains(x) implies s.contains(x) && x != s[i] by {
        let j = choose|j: int| 0 <= j < t.len() && t[j] == x;
        if j < i {
            assert(s[j] == x);
        } else {
            assert(s[j + 1] == x);
        }
    }
}

impl DocumentAdapter {
    /// The content is well formed and each subscriber is held once.
    pub open spec fn wf(&self) -> bool {
        self.content.wf() && self.sinks@.no_duplicates()
    }

    /// An adapter over an empty buffer, with no subscribers and no token yet.
    pub fn new() -> (r: DocumentAdapter)
        ensures
            r.wf(),
            r.content.text@ == Seq::<u16>::empty(),
            r.content.selection == Selection::new(0, 0),
            r.sinks@ == Seq::<u64>::empty(),
            r.edit_cookie is None,
    {
        DocumentAdapter { content: Content::new(), sinks: Vec::new(), edit_cookie: None }
    }

    /// Publishes the edit-session token; it is granted once, so a second
    /// token is refused and the first is kept.
    pub fn publish_edit_cookie(&mut self, cookie: u32) -> (r: bool)
        ensures
            r == old(self).edit_cookie is None,
            final(self).edit_cookie == if r { Some(cookie) } else { old(self).edit_cookie },
            final(self).content == old(self).content,
            final(self).sinks == old(self).sinks,
    {
        if self.edit_cookie.is_some() {
            false
        } else {
            self.edit_cookie = Some(cookie);
            true
        }
    }

    /// The published edit-session token, if any.
    pub fn edit_cookie(&self) -> (r: Option<u32>)
        ensures
            r == self.edit_cookie,
    {
        self.edit_cookie
    }

    /// Whether `id` is a current subscriber.
    pub fn is_subscribed(&self, id: u64) -> (r: bool)
        ensures
            r == self.sinks@.contains(id),
    {
        let mut i: usize = 0;
        while i < self.sinks.len()
            invariant
                i <= self.sinks@.len(),
                forall|j: int| 0 <= j < i ==> self.sinks@[j] != id,
            decreases self.sinks@.len() - i,
        {
            if self.sinks[i] == id {
                return true;
            }
            i = i + 1;
        }
        false
    }

    /// Adds a subscriber by identity; one already present is kept once.
    pub fn advise_sink(&mut self, id: u64)
        requires
            old(self).wf(),
        ensures
            final(self).wf(),
            final(self).sinks@ == if old(self).sinks@.contains(id) {
                old(self).sinks@
            } else {
                old(self).sinks@.push(id)
            },
            forall|x: u64| final(self).sinks@.contains(x) <==> (old(self).sinks@.contains(x) || x == id),
            final(self).content == old(self).content,
            final(self).edit_cookie == old(self).edit_cookie,
    {
        if !self.is_subscribed(id) {
            let ghost before = self.sinks@;
            self.sinks.push(id);
            proof {
                assert forall|x: u64| self.sinks@.contains(x) implies before.contains(x) || x == id by {
                    let j = choose|j: int| 0 <= j < self.sinks@.len() && self.sinks@[j] == x;
                    if j < before.len() {
                        assert(before[j] == x);
                    }
                }
                assert forall|x: u64| before.contains(x) implies self.sinks@.contains(x) by {
                    let j = choose|j: int| 0 <= j < before.len() && before[j] == x;
                    assert(self.sinks@[j] == x);
                }
                assert(self.sinks@[before.len() as int] == id);
            }
        }
    }

    /// Removes the subscriber with identity `id`, and nothing else; an
    /// identity that is not subscribed is reported as not found.
    pub fn unadvise_sink(&mut self, id: u64) -> (r: Result<(), TsError>)
        requires
            old(self).wf(),
        ensures
            final(self).wf(),
            r is Ok <==> old(self).sinks@.contains(id),
            r is Err ==> r->Err_0 == TsError::NotFound && final(self).sinks@ == old(self).sinks@,
            forall|x: u64| final(self).sinks@.contains(x) <==> (old(self).sinks@.contains(x) && x != id),
            final(self).sinks@.len() == old(self).sinks@.len() - (if r is Ok { 1int } else { 0int }),
            final(self).content == old(self).content,
            final(self).edit_cookie == old(self).edit_cookie,
    {
        let mut i: usize = 0;
        while i < self.sinks.len()
            invariant
                i <= self.sinks@.len(),
                forall|j: int| 0 <= j < i ==> self.sinks@[j] != id,
                self.sinks@ == old(self).sinks@,
                self.content == old(self).content,
                self.edit_cookie == old(self).edit_cookie,
                self.wf(),
            decreases self.sinks@.len() - i,
        {
            if self.sinks[i] == id {
                let ghost before = self.sinks@;
                proof {
                    lemma_remove_unique(before, i as int);
                }
                self.sinks.remove(i);
                return Ok(());
            }
            i = i + 1;
        }
        Err(TsError::NotFound)
    }

    /// Grants the lock that `flags` ask for: every current subscriber is
    /// to be told of it, in order of subscription; no known lock, nobody.
    pub fn request_lock(&self, flags: u32) -> (r: LockGrant)
        ensures
            r.mode == lock_mode_of(flags),
            r.notify@ == notified(self.sinks@, flags),
    {
        let mode = lock_mode_from_flags(flags);
        let mut notify: Vec<u64> = Vec::new();
        if mode.is_some() {
            let mut i: usize = 0;
            while i < self.sinks.len()
                invariant
                    i <= self.sinks@.len(),
                    notify@ == self.sinks@.subrange(0, i as int),
                decreases self.sinks@.len() - i,
            {
                notify.push(self.sinks[i]);
                proof {
                    assert(self.sinks@.subrange(0, i + 1) == self.sinks@.subrange(0, i as int).push(self.sinks@[i as int]));
                }
                i = i + 1;
            }
            assert(self.sinks@.subrange(0, self.sinks@.len() as int) == self.sinks@);
        }
        LockGrant { mode, notify }
    }

    /// The document supports no dynamic or static change notifications.
    pub fn get_status(&self) -> (r: Status)
        ensures
            r == (Status { dynamic_flags: 0, static_flags: 0 }),
    {
        Status { dynamic_flags: 0, static_flags: 0 }
    }

    /// The current selection; exactly one selection must be asked for.
    pub fn get_selection(&self, index: u32, count: u32) -> (r: Result<Selection, TsError>)
        ensures
            r is Ok <==> count == 1,
            r is Err ==> r->Err_0 == TsError::InvalidArgument,
            r matches Ok(s) ==> s == self.content.selection,
    {
        if count != 1 {
            return Err(TsError::InvalidArgument);
        }
        Ok(self.content.selection)
    }

    /// Overwrites the selection with the one given; any other number of
    /// selections is refused and the selection is kept.
    pub fn set_selection(&mut self, selections: &Vec<Selection>) -> (r: Result<(), TsError>)
        ensures
            r is Ok <==> selections@.len() == 1,
            r is Err ==> r->Err_0 == TsError::InvalidArgument,
            final(self).content.selection == selection_after_set(old(self).content.selection, selections@),
            final(self).content.text == old(self).content.text,
            final(self).sinks == old(self).sinks,
            final(self).edit_cookie == old(self).edit_cookie,
    {
        if selections.len() != 1 {
            return Err(TsError::InvalidArgument);
        }
        self.content.selection = selections[0];
        Ok(())
    }

    /// Reads `text[start .. min(end, start + max_chars)]`, `end == -1`
    /// meaning the end of the buffer.
    pub fn get_text(&self, start: i32, end: i32, max_chars: u32) -> (r: Result<TextRun, TsError>)
        requires
            self.wf(),
        ensures
            valid_read_range(self.content.text@.len() as int, start as int, end as int) <==> r is Ok,
            r is Err ==> r->Err_0 == TsError::InvalidArgument,
            r matches Ok(run) ==> {
                &&& run.units@ == text_read(self.content.text@, start as int, end as int, max_chars as int)
                &&& run.next as int == start + run.units@.len()
            },
    {
        self.content.get_text(start, end, max_chars)
    }

    /// Replaces `text[start .. end]` with `new_units`, unconditionally and
    /// with no merging; the selection is kept.
    pub fn set_text(&mut self, start: i32, end: i32, new_units: &Vec<u16>) -> (r: Result<TextChange, TsError>)
        requires
            old(self).wf(),
        ensures
            final(self).wf(),
            final(self).content.selection == old(self).content.selection,
            final(self).sinks == old(self).sinks,
            final(self).edit_cookie == old(self).edit_cookie,
            r is Ok <==> (valid_write_range(old(self).content.text@.len() as int, start as int, end as int)
                && old(self).content.text@.len() - (end - start) + new_units@.len() <= MAX_OFFSET),
            r is Err ==> r->Err_0 == TsError::InvalidArgument && final(self).content.text@ == old(self).content.text@,
            r matches Ok(c) ==> {
                &&& final(self).content.text@ == spliced(old(self).content.text@, start as int, end as int, new_units@)
                &&& c == (TextChange { start, old_end: end, new_end: (start + new_units@.len()) as i32 })
                &&& c.new_end as int == start + new_units@.len()
            },
    {
        self.content.set_text(start, end, new_units)
    }

    /// Plain text only: no attribute is supported, and asking succeeds.
    pub fn request_supported_attrs(&self) -> (r: Result<(), TsError>)
        ensures
            r is Ok,
    {
        Ok(())
    }

    /// Plain text only: no requested attribute is ever found.
    pub fn retrieve_requested_attrs(&self, count: u32) -> (r: u32)
        ensures
            r == 0,
    {
        0
    }

    /// Formatted text, embedded objects, attribute runs, point hit-tests
    /// and insertion queries are not supported.
    pub fn unsupported_request(&self) -> (r: Result<(), TsError>)
        ensures
            r == Err::<(), TsError>(TsError::NotImplemented),
    {
        Err(TsError::NotImplemented)
    }

    /// No layout engine is wired, so text extents are never available.
    pub fn get_text_ext(&self, view: u32, start: i32, end: i32) -> (r: Result<Rect, TsError>)
        ensures
            r == Err::<Rect, TsError>(TsError::NoLayoutAvailable),
    {
        Err(TsError::NoLayoutAvailable)
    }

    /// A fixed placeholder rectangle for the view's screen extent.
    pub fn get_screen_ext(&self, view: u32) -> (r: Rect)
        ensures
            r == (Rect { left: 0, top: 0, right: 100, bottom: 50 }),
    {
        Rect { left: 0, top: 0, right: 100, bottom: 50 }
    }

    /// The document has a single view, numbered zero.
    pub fn get_active_view(&self) -> (r: u32)
        ensures
            r == 0,
    {
        0
    }
}

} // verus!
