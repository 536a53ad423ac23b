use vstd::prelude::*;

verus! {

/// What a window's input slot is to hold.
#[derive(Clone, Copy, Debug, PartialEq, Eq, Structural)]
pub enum FocusTarget {
    /// The active document context.
    Document,
    /// No context at all.
    NoContext,
}

/// An association of a window with a focus target.
#[derive(Clone, Copy, Debug, PartialEq, Eq, Structural)]
pub struct FocusAssociation {
    pub window: u64,
    pub target: FocusTarget,
}

/// The association a focus change calls for: a window that gains focus
/// gets the document, one that loses it gets no context. The same
/// transition always calls for the same association.
pub fn on_window_focus_changed(window: u64, gained: bool) -> (r: FocusAssociation)
    ensures
        r.window == window,
        r.target == if gained { FocusTarget::Document } else { FocusTarget::NoContext },
{
    let target = if gained { FocusTarget::Document } else { FocusTarget::NoContext };
    FocusAssociation { window, target }
}

} // verus!
