//! The navigation stack: which view is active and what it points at.
//! An empty stack is the root podcast-list view; the top frame is the
//! active one and decides what each key means.

use vstd::prelude::*;

verus! {

/// One entry of the navigation stack, carrying the selection context the
/// view needs.
#[derive(Clone, Copy, Debug, PartialEq, Eq, Structural)]
pub enum NavFrame {
    /// The info popup of the podcast at this index.
    PodcastInfo { podcast: usize },
    /// The add-feed form; its URL buffer lives in `AddPodcastPopupState`.
    AddPodcast,
    /// The episode list of the podcast at this index.
    EpisodeList { podcast: usize },
    /// The info popup of one episode of one podcast.
    EpisodeInfo { podcast: usize, episode: usize },
    /// The per-feed progress of a running refresh.
    UpdateProgress,
    /// An error message; its text lives in `ErrorInfoPopupState`.
    ErrorInfo,
}

/// The ordered stack of navigation frames. Empty means the root podcast
/// list.
pub struct NavStack {
    frames: Vec<NavFrame>,
}

impl View for NavStack {
    type V = Seq<NavFrame>;

    closed spec fn view(&self) -> Seq<NavFrame> {
        self.frames@
    }
}

impl NavStack {
    /// The root state: no frame pushed.
    pub fn new() -> (s: NavStack)
        ensures
            s@ == Seq::<NavFrame>::empty(),
    {
        NavStack { frames: Vec::new() }
    }

    pub fn depth(&self) -> (n: usize)
        ensures
            n == self@.len(),
    {
        self.frames.len()
    }

    /// The active frame; `None` at the root.
    pub fn top(&self) -> (r: Option<NavFrame>)
        ensures
            r == spec_top(self@),
    {
        if self.frames.len() == 0 {
            Option::None
        } else {
            Option::Some(self.frames[self.frames.len() - 1])
        }
    }

    /// Makes `frame` the active one.
    pub fn push(&mut self, frame: NavFrame)
        ensures
            final(self)@ == old(self)@.push(frame),
    {
        self.frames.push(frame);
    }

    /// Leaves the active frame; a no-op at the root.
    pub fn pop(&mut self) -> (r: Option<NavFrame>)
        ensures
            final(self)@ == spec_pop(old(self)@),
            r == spec_top(old(self)@),
    {
        if self.frames.len() == 0 {
            Option::None
        } else {
            let f = self.frames.pop();
            match f {
                Option::Some(frame) => Option::Some(frame),
                Option::None => Option::None,
            }
        }
    }
}

/// The active frame of a stack; `None` at the root.
pub open spec fn spec_top(frames: Seq<NavFrame>) -> Option<NavFrame> {
    if frames.len() == 0 {
        Option::None
    } else {
        Option::Some(frames.last())
    }
}

/// The stack after popping once: popping at the root is a no-op.
pub open spec fn spec_pop(frames: Seq<NavFrame>) -> Seq<NavFrame> {
    if frames.len() == 0 {
        frames
    } else {
        frames.drop_last()
    }
}

} // verus!
