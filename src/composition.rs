use vstd::prelude::*;

verus! {

/// Whether a composition is in progress.
#[derive(Clone, Copy, Debug, PartialEq, Eq, Structural)]
pub enum CompositionPhase {
    Idle,
    Composing,
}

/// What to do when a composition ends.
#[derive(Clone, Copy, Debug, PartialEq, Eq, Structural)]
pub enum EndStep {
    /// The host passed no composition view: log it and report success.
    NoView,
    /// No edit-session token has been published yet: log it and report
    /// success.
    NoSession,
    /// Resolve the view's range and read its finalized text with `cookie`.
    ReadRange { cookie: u32 },
}

/// The step taken at the end of a composition. It depends on what the
/// host handed over alone, never on an earlier cycle.
pub open spec fn end_step_of(view_present: bool, cookie: Option<u32>) -> EndStep {
    if !view_present {
        EndStep::NoView
    } else {
        match cookie {
            None => EndStep::NoSession,
            Some(c) => EndStep::ReadRange { cookie: c },
        }
    }
}

/// The units a range read put into `buffer`, the host reporting `fetched`
/// of them; a count past the buffer is cut to it.
pub open spec fn committed_of(buffer: Seq<u16>, fetched: int) -> Seq<u16> {
    if fetched <= buffer.len() {
        buffer.subrange(0, fetched)
    } else {
        buffer
    }
}

/// Follows the composition lifecycle of one document context.
#[derive(Clone, Copy, Debug, PartialEq, Eq, Structural)]
pub struct CompositionTracker {
    pub phase: CompositionPhase,
}

impl CompositionTracker {
    /// A tracker with no composition in progress.
    pub fn new() -> (r: CompositionTracker)
        ensures
            r.phase == CompositionPhase::Idle,
    {
        CompositionTracker { phase: CompositionPhase::Idle }
    }

    /// A composition starts; it is always accepted.
    pub fn on_start_composition(&mut self) -> (accepted: bool)
        ensures
            accepted,
            final(self).phase == CompositionPhase::Composing,
    {
        self.phase = CompositionPhase::Composing;
        true
    }

    /// A composition was updated. The buffer has already been changed
    /// through the text store; this only tells whether a composition was
    /// in progress, and changes nothing.
    pub fn on_update_composition(&self) -> (composing: bool)
        ensures
            composing == (self.phase == CompositionPhase::Composing),
    {
        match self.phase {
            CompositionPhase::Composing => true,
            CompositionPhase::Idle => false,
        }
    }

    /// A composition ends: the tracker goes back to idle and says what to
    /// do with the view the host passed, if any.
    pub fn on_end_composition(&mut self, view_present: bool, cookie: Option<u32>) -> (r: EndStep)
        ensures
            final(self).phase == CompositionPhase::Idle,
            r == end_step_of(view_present, cookie),
    {
        self.phase = CompositionPhase::Idle;
        if !view_present {
            EndStep::NoView
        } else {
            match cookie {
                None => EndStep::NoSession,
                Some(c) => EndStep::ReadRange { cookie: c },
            }
        }
    }
}

/// The finalized text of a composition: the first `fetched` units of the
/// buffer the range was read into.
pub fn committed_text(buffer: &Vec<u16>, fetched: u32) -> (r: Vec<u16>)
    ensures
        r@ == committed_of(buffer@, fetched as int),
{
    let stop: usize = if (fetched as usize) < buffer.len() { fetched as usize } else { buffer.len() };
    let mut out: Vec<u16> = Vec::new();
    let mut i: usize = 0;
    while i < stop
        invariant
            i <= stop <= buffer@.len(),
            out@ == buffer@.subrange(0, i as int),
        decreases stop - i,
    {
        out.push(buffer[i]);
        proof {
            assert(buffer@.subrange(0, i + 1) == buffer@.subrange(0, i as int).push(buffer@[i as int]));
        }
        i = i + 1;
    }
    assert(buffer@.subrange(0, buffer@.len() as int) == buffer@);
    out
}

/// No state leaks from one composition cycle into the next: a tracker
/// that a cycle left (idle, as every end leaves it) is the same as a
/// fresh one, so the next cycle's end step and surfaced text are the ones
/// that its own view, token and read give.
pub proof fn lemma_cycles_independent(after_cycle: CompositionTracker, fresh: CompositionTracker)
    requires
        after_cycle.phase == CompositionPhase::Idle,
        fresh.phase == CompositionPhase::Idle,
    ensures
        after_cycle == fresh,
{
}

} // verus!
