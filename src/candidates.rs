use vstd::prelude::*;

use crate::error::TsError;

verus! {

/// What the host handed back when asked for a UI element's candidates.
#[derive(Debug, PartialEq, Eq)]
pub enum CandidateFetch {
    /// A host call failed on the way.
    Failed(TsError),
    /// The element has no candidate-list capability.
    NotCandidateList,
    /// The element's strings, at indices `0 .. count`, in order.
    Strings(Vec<String>),
}

/// Observes the host's UI elements and publishes the candidates of the
/// latest successful update, as a snapshot.
#[derive(Debug)]
pub struct CandidateObserver {
    /// The element begun and not yet ended, if any.
    pub current: Option<u32>,
    /// The latest published candidate list.
    pub published: Vec<String>,
    /// The element whose update published it.
    pub published_for: Option<u32>,
}

impl CandidateObserver {
    /// An observer that has published nothing.
    pub fn new() -> (r: CandidateObserver)
        ensures
            r.current is None,
            r.published@ == Seq::<String>::empty(),
            r.published_for is None,
    {
        CandidateObserver { current: None, published: Vec::new(), published_for: None }
    }

    /// A UI element begins. The application owns presentation, so the
    /// host is always told to suppress its default UI.
    pub fn begin_ui_element(&mut self, id: u32) -> (suppress_default_ui: bool)
        ensures
            suppress_default_ui,
            final(self).current == Some(id),
            final(self).published == old(self).published,
            final(self).published_for == old(self).published_for,
    {
        self.current = Some(id);
        true
    }

    /// A UI element was updated. Its candidates, if it has a candidate
    /// list, are published in order; one without publishes an empty list;
    /// a failed host call aborts this update alone, and leaves what was
    /// published before.
    pub fn update_ui_element(&mut self, id: u32, fetch: CandidateFetch) -> (r: Result<(), TsError>)
        ensures
            final(self).current == old(self).current,
            match fetch {
                CandidateFetch::Failed(e) => {
                    &&& r == Err::<(), TsError>(e)
                    &&& final(self).published == old(self).published
                    &&& final(self).published_for == old(self).published_for
                },
                CandidateFetch::NotCandidateList => {
                    &&& r is Ok
                    &&& final(self).published@ == Seq::<String>::empty()
                    &&& final(self).published_for == Some(id)
                },
                CandidateFetch::Strings(list) => {
                    &&& r is Ok
                    &&& final(self).published@ == list@
                    &&& final(self).published_for == Some(id)
                },
            },
    {
        match fetch {
            CandidateFetch::Failed(e) => Err(e),
            CandidateFetch::NotCandidateList => {
                self.published = Vec::new();
                self.published_for = Some(id);
                Ok(())
            },
            CandidateFetch::Strings(list) => {
                self.published = list;
                self.published_for = Some(id);
                Ok(())
            },
        }
    }

    /// A UI element ends: the reference to it is released; what was
    /// published stays.
    pub fn end_ui_element(&mut self, id: u32)
        ensures
            final(self).current == if old(self).current == Some(id) {
                None
            } else {
                old(self).current
            },
            final(self).published == old(self).published,
            final(self).published_for == old(self).published_for,
    {
        if self.current == Some(id) {
            self.current = None;
        }
    }
}

} // verus!
