use vstd::prelude::*;

use crate::error::TsError;

verus! {

/// Which end of a selection is the active one.
#[derive(Clone, Copy, Debug, PartialEq, Eq, Structural)]
pub enum AnchorEnd {
    Start,
    End,
}

/// A half-open range of UTF-16 code units, with its anchor style and the
/// interim-character flag that marks a composition in progress.
#[derive(Clone, Copy, Debug, PartialEq, Eq, Structural)]
pub struct Selection {
    pub start: i32,
    pub end: i32,
    pub anchor: AnchorEnd,
    pub interim: bool,
}

impl Selection {
    /// A collapsed or extended selection whose active end is its end.
    pub open spec fn new_spec(start: i32, end: i32) -> Selection {
        Selection { start, end, anchor: AnchorEnd::End, interim: false }
    }

    #[verifier::when_used_as_spec(new_spec)]
    pub fn new(start: i32, end: i32) -> (r: Selection)
        ensures
            r == Selection::new_spec(start, end),
    {
        Selection { start, end, anchor: AnchorEnd::End, interim: false }
    }
}


/// The largest offset a buffer may reach: offsets travel as `i32`.
pub const MAX_OFFSET: usize = 0x7fff_ffff;

/// Whether `[start, end)` names a readable range of a buffer of `len`
/// units, where an `end` of `-1` stands for the end of the buffer.
pub open spec fn valid_read_range(len: int, start: int, end: int) -> bool {
    0 <= start <= len && (end == -1 || (start <= end && end <= len))
}

/// The offset at which a read of at most `max_chars` units stops.
pub open spec fn read_stop(len: int, start: int, end: int, max_chars: int) -> int {
    let limit = if end == -1 { len } else { end };
    if limit <= start + max_chars { limit } else { start + max_chars }
}

/// What `GetText` returns of `text`.
pub open spec fn text_read(text: Seq<u16>, start: int, end: int, max_chars: int) -> Seq<u16> {
    text.subrange(start, read_stop(text.len() as int, start, end, max_chars))
}

/// Whether `[start, end)` names a replaceable range of a buffer of `len` units.
pub open spec fn valid_write_range(len: int, start: int, end: int) -> bool {
    0 <= start <= end <= len
}

/// `text` with `[start, end)` replaced by `new_units`.
pub open spec fn spliced(text: Seq<u16>, start: int, end: int, new_units: Seq<u16>) -> Seq<u16> {
    text.subrange(0, start) + new_units + text.subrange(end, text.len() as int)
}

/// Writing `new_units` over `[start, end)` and then reading `len(new_units)`
/// units back from `start`, with `start + len(new_units)` as the end,
/// gives `new_units`; the buffer's length changes by
/// `len(new_units) - (end - start)`.
pub proof fn lemma_write_then_read(text: Seq<u16>, start: int, end: int, new_units: Seq<u16>)
    requires
        valid_write_range(text.len() as int, start, end),
    ensures
        spliced(text, start, end, new_units).len() == text.len() + new_units.len() - (end - start),
        valid_read_range(spliced(text, start, end, new_units).len() as int, start, start + new_units.len()),
        text_read(spliced(text, start, end, new_units), start, start + new_units.len(), new_units.len() as int)
            == new_units,
{
    let after = spliced(text, start, end, new_units);
    assert(after.subrange(start, start + new_units.len()) =~= new_units);
}

/// Units read from the buffer, and the offset just past them.
#[derive(Debug, PartialEq, Eq)]
pub struct TextRun {
    pub units: Vec<u16>,
    pub next: i32,
}

/// The range a write replaced and where the new text ends.
#[derive(Clone, Copy, Debug, PartialEq, Eq, Structural)]
pub struct TextChange {
    pub start: i32,
    pub old_end: i32,
    pub new_end: i32,
}

/// The document: a buffer of UTF-16 code units and its selection.
#[derive(Debug)]
pub struct Content {
    pub text: Vec<u16>,
    pub selection: Selection,
}

impl Content {
    /// Every offset into the buffer fits in an `i32`.
    pub open spec fn wf(&self) -> bool {
        self.text@.len() <= MAX_OFFSET
    }

    /// An empty buffer with a collapsed selection at its start.
    pub fn new() -> (r: Content)
        ensures
            r.wf(),
            r.text@ == Seq::<u16>::empty(),
            r.selection == Selection::new_spec(0, 0),
    {
        Content { text: Vec::new(), selection: Selection::new(0, 0) }
    }

    /// The number of units in the buffer.
    pub fn len(&self) -> (r: i32)
        requires
            self.wf(),
        ensures
            r as int == self.text@.len(),
    {
        self.text.len() as i32
    }

    /// Reads `text[start .. min(end, start + max_chars)]`, `end == -1`
    /// meaning the end of the buffer; a malformed range is refused.
    pub fn get_text(&self, start: i32, end: i32, max_chars: u32) -> (r: Result<TextRun, TsError>)
        requires
            self.wf(),
        ensures
            valid_read_range(self.text@.len() as int, start as int, end as int) <==> r is Ok,
            r is Err ==> r->Err_0 == TsError::InvalidArgument,
            r matches Ok(run) ==> {
                &&& run.units@ == text_read(self.text@, start as int, end as int, max_chars as int)
                &&& run.next as int == start + run.units@.len()
            },
    {
        let len = self.text.len();
        if start < 0 || start as usize > len {
            return Err(TsError::InvalidArgument);
        }
        if end != -1 && (end < start || end as usize > len) {
            return Err(TsError::InvalidArgument);
        }
        let limit: usize = if end == -1 { len } else { end as usize };
        let first: usize = start as usize;
        let stop: usize = if limit - first <= max_chars as usize { limit } else { first + max_chars as usize };
        let mut units: Vec<u16> = Vec::new();
        let mut i: usize = first;
        while i < stop
            invariant
                first <= i <= stop <= len,
                len == self.text@.len(),
                units@ == self.text@.subrange(first as int, i as int),
            decreases stop - i,
        {
            units.push(self.text[i]);
            proof {
                assert(self.text@.subrange(first as int, i + 1) == self.text@.subrange(first as int, i as int).push(self.text@[i as int]));
            }
            i = i + 1;
        }
        Ok(TextRun { units, next: stop as i32 })
    }

    /// Replaces `text[start .. end]` with `new_units`; the selection is
    /// left as it was. A malformed range, or a result too long for `i32`
    /// offsets, is refused.
    pub fn set_text(&mut self, start: i32, end: i32, new_units: &Vec<u16>) -> (r: Result<TextChange, TsError>)
        requires
            old(self).wf(),
        ensures
            final(self).wf(),
            final(self).selection == old(self).selection,
            r is Ok <==> (valid_write_range(old(self).text@.len() as int, start as int, end as int)
                && old(self).text@.len() - (end - start) + new_units@.len() <= MAX_OFFSET),
            r is Err ==> r->Err_0 == TsError::InvalidArgument && final(self).text@ == old(self).text@,
            r matches Ok(c) ==> {
                &&& final(self).text@ == spliced(old(self).text@, start as int, end as int, new_units@)
                &&& c == (TextChange { start, old_end: end, new_end: (start + new_units@.len()) as i32 })
                &&& c.new_end as int == start + new_units@.len()
            },
    {
        let len = self.text.len();
        if start < 0 || start > end || end as usize > len {
            return Err(TsError::InvalidArgument);
        }
        let removed: usize = (end - start) as usize;
        if new_units.len() > MAX_OFFSET - (len - removed) {
            return Err(TsError::InvalidArgument);
        }
        let ghost before = self.text@;
        let mut out: Vec<u16> = Vec::new();
        let mut i: usize = 0;
        while i < start as usize
            invariant
                0 <= i <= start <= end <= len,
                len == before.len(),
                before == self.text@,
                out@ == before.subrange(0, i as int),
            decreases start - i,
        {
            out.push(self.text[i]);
            proof {
                assert(before.subrange(0, i + 1) == before.subrange(0, i as int).push(before[i as int]));
            }
            i = i + 1;
        }
        let mut j: usize = 0;
        while j < new_units.len()
            invariant
                j <= new_units@.len(),
                0 <= start <= end <= len,
                len == before.len(),
                before == self.text@,
                out@ == before.subrange(0, start as int) + new_units@.subrange(0, j as int),
            decreases new_units@.len() - j,
        {
            out.push(new_units[j]);
            proof {
                assert(new_units@.subrange(0, j + 1) == new_units@.subrange(0, j as int).push(new_units@[j as int]));
            }
            j = j + 1;
        }
        assert(new_units@.subrange(0, new_units@.len() as int) == new_units@);
        let mut k: usize = end as usize;
        while k < len
            invariant
                0 <= start <= end <= k <= len,
                len == before.len(),
                before == self.text@,
                out@ == before.subrange(0, start as int) + new_units@ + before.subrange(end as int, k as int),
            decreases len - k,
        {
            out.push(self.text[k]);
            proof {
                assert(before.subrange(end as int, k + 1) == before.subrange(end as int, k as int).push(before[k as int]));
            }
            k = k + 1;
        }
        self.text = out;
        let new_end: i32 = start + new_units.len() as i32;
        Ok(TextChange { start, old_end: end, new_end })
    }
}

} // verus!
