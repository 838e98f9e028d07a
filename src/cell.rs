//! The current upstream URL: one optional string, replaced whole.
use vstd::prelude::*;

verus! {

/// The upstream URL that new relay sessions read when they start.
///
/// Callers that share it between tasks keep it behind a lock; every change is
/// one whole replacement, so a reader sees either the old or the new URL.
pub struct StreamCell {
    current: Option<String>,
}

/// The view of an optional string.
pub open spec fn opt_view(o: Option<String>) -> Option<Seq<char>> {
    match o {
        Some(s) => Some(s@),
        None => None,
    }
}

impl View for StreamCell {
    type V = Option<Seq<char>>;

    closed spec fn view(&self) -> Option<Seq<char>> {
        opt_view(self.current)
    }
}

impl StreamCell {
    /// An empty cell: no stream has been set.
    pub fn new() -> (r: Self)
        ensures
            r@ == None::<Seq<char>>,
    {
        StreamCell { current: None }
    }

    /// Replaces the URL; sessions already running keep the one they read.
    pub fn set_stream(&mut self, url: String)
        ensures
            final(self)@ == Some(url@),
    {
        self.current = Some(url);
    }

    /// A copy of the URL as it stands now.
    pub fn snapshot(&self) -> (r: Option<String>)
        ensures
            opt_view(r) == self@,
    {
        match &self.current {
            Some(u) => Some(u.clone()),
            None => None,
        }
    }

    /// Whether a URL has been set.
    pub fn is_set(&self) -> (r: bool)
        ensures
            r == (self@ is Some),
    {
        self.current.is_some()
    }
}

} // verus!
