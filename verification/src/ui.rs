//! The state behind each view component: list selection cursors, info
//! popup scroll offsets, and the text buffers of the add-podcast and
//! error popups. Drawing them on a terminal lives outside the library;
//! everything the drawing reads is decided here.

use vstd::prelude::*;

verus! {

/// The selection state of the podcast list.
pub struct PodcastListState {
    is_focused: bool,
    selected: Option<usize>,
}

impl PodcastListState {
    pub fn new() -> (s: PodcastListState)
        ensures
            !s.spec_focused(),
            s.spec_selected() is None,
    {
        PodcastListState { is_focused: false, selected: None }
    }

    pub closed spec fn spec_focused(&self) -> bool {
        self.is_focused
    }

    pub closed spec fn spec_selected(&self) -> Option<usize> {
        self.selected
    }

    /// Marks the list as the focused pane.
    pub fn focus(&mut self, value: bool)
        ensures
            final(self).spec_focused() == value,
            final(self).spec_selected() == old(self).spec_selected(),
    {
        self.is_focused = value;
    }

    /// The index of the selected podcast, if any.
    pub fn selected(&self) -> (r: Option<usize>)
        ensures
            r == self.spec_selected(),
    {
        self.selected
    }

    /// Moves the selection one podcast down; an empty selection starts
    /// at the top.
    pub fn next(&mut self)
        ensures
            final(self).spec_focused() == old(self).spec_focused(),
            final(self).spec_selected() == spec_next_selection(old(self).spec_selected()),
    {
        self.selected = match self.selected {
            Option::None => Option::Some(0),
            Option::Some(i) => Option::Some(
                if i < usize::MAX {
                    i + 1
                } else {
                    i
                },
            ),
        };
    }

    /// Moves the selection one podcast up; an empty selection starts at
    /// the top.
    pub fn prev(&mut self)
        ensures
            final(self).spec_focused() == old(self).spec_focused(),
            final(self).spec_selected() == spec_prev_selection(old(self).spec_selected()),
    {
        self.selected = match self.selected {
            Option::None => Option::Some(0),
            Option::Some(i) => Option::Some(
                if i > 0 {
                    i - 1
                } else {
                    0
                },
            ),
        };
    }

    /// Fits the selection to a list of `len` entries, as the renderer
    /// does each tick: an empty list selects nothing, a non-empty list
    /// selects its first entry when nothing was selected, and a cursor
    /// past the end moves to the last entry.
    pub fn normalize(&mut self, len: usize)
        ensures
            final(self).spec_focused() == old(self).spec_focused(),
            final(self).spec_selected() == spec_normalize(old(self).spec_selected(), len),
    {
        self.selected = normalize_selection(self.selected, len);
    }
}

/// The selection a list of `len` entries shows for a stored cursor.
pub open spec fn spec_normalize_int(selected: Option<usize>, len: int) -> Option<usize> {
    if len <= 0 {
        Option::None
    } else {
        match selected {
            Option::None => Option::Some(0usize),
            Option::Some(i) => Option::Some(
                if i < len {
                    i
                } else {
                    (len - 1) as usize
                },
            ),
        }
    }
}

/// The selection a list of `len` entries shows for a stored cursor.
pub open spec fn spec_normalize(selected: Option<usize>, len: usize) -> Option<usize> {
    spec_normalize_int(selected, len as int)
}

/// Where one step down moves a selection cursor.
pub open spec fn spec_next_selection(selected: Option<usize>) -> Option<usize> {
    match selected {
        Option::None => Option::Some(0usize),
        Option::Some(i) => Option::Some(
            if i < usize::MAX {
                (i + 1) as usize
            } else {
                i
            },
        ),
    }
}

/// Where one step up moves a selection cursor.
pub open spec fn spec_prev_selection(selected: Option<usize>) -> Option<usize> {
    match selected {
        Option::None => Option::Some(0usize),
        Option::Some(i) => Option::Some(
            if i > 0 {
                (i - 1) as usize
            } else {
                0usize
            },
        ),
    }
}

/// One line up in a scrolled popup, staying at the top.
pub open spec fn spec_scroll_up(v: u16) -> u16 {
    if v > 0 {
        (v - 1) as u16
    } else {
        0u16
    }
}

/// One line down in a scrolled popup, saturating.
pub open spec fn spec_scroll_down(v: u16) -> u16 {
    if v < u16::MAX {
        (v + 1) as u16
    } else {
        u16::MAX
    }
}

fn normalize_selection(selected: Option<usize>, len: usize) -> (r: Option<usize>)
    ensures
        r == spec_normalize(selected, len),
{
    if len == 0 {
        Option::None
    } else {
        match selected {
            Option::None => Option::Some(0),
            Option::Some(i) => Option::Some(
                if i < len {
                    i
                } else {
                    len - 1
                },
            ),
        }
    }
}

/// The selection state of the episode list.
pub struct EpisodeListState {
    is_focused: bool,
    selected: Option<usize>,
}

impl EpisodeListState {
    pub fn new() -> (s: EpisodeListState)
        ensures
            !s.spec_focused(),
            s.spec_selected() is None,
    {
        EpisodeListState { is_focused: false, selected: None }
    }

    pub closed spec fn spec_focused(&self) -> bool {
        self.is_focused
    }

    pub closed spec fn spec_selected(&self) -> Option<usize> {
        self.selected
    }

    /// Marks the list as the focused pane.
    pub fn focus(&mut self, value: bool)
        ensures
            final(self).spec_focused() == value,
            final(self).spec_selected() == old(self).spec_selected(),
    {
        self.is_focused = value;
    }

    /// The index of the selected episode, if any.
    pub fn selected(&self) -> (r: Option<usize>)
        ensures
            r == self.spec_selected(),
    {
        self.selected
    }

    /// Puts the selection back on the first episode, as a change of
    /// podcast does.
    pub fn first(&mut self)
        ensures
            final(self).spec_focused() == old(self).spec_focused(),
            final(self).spec_selected() == Option::Some(0usize),
    {
        self.selected = Option::Some(0);
    }

    /// Moves the selection one episode up; an empty selection starts at
    /// the top.
    pub fn prev(&mut self)
        ensures
            final(self).spec_focused() == old(self).spec_focused(),
            final(self).spec_selected() == spec_prev_selection(old(self).spec_selected()),
    {
        self.selected = match self.selected {
            Option::None => Option::Some(0),
            Option::Some(i) => Option::Some(
                if i > 0 {
                    i - 1
                } else {
                    0
                },
            ),
        };
    }

    /// Moves the selection one episode down; an empty selection starts
    /// at the top.
    pub fn next(&mut self)
        ensures
            final(self).spec_focused() == old(self).spec_focused(),
            final(self).spec_selected() == spec_next_selection(old(self).spec_selected()),
    {
        self.selected = match self.selected {
            Option::None => Option::Some(0),
            Option::Some(i) => Option::Some(
                if i < usize::MAX {
                    i + 1
                } else {
                    i
                },
            ),
        };
    }

    /// Fits the selection to a list of `len` episodes, as the renderer
    /// does each tick.
    pub fn normalize(&mut self, len: usize)
        ensures
            final(self).spec_focused() == old(self).spec_focused(),
            final(self).spec_selected() == spec_normalize(old(self).spec_selected(), len),
    {
        self.selected = normalize_selection(self.selected, len);
    }
}

/// The scroll state of the podcast info popup.
pub struct PodcastInfoPopupState {
    scroll_offset: u16,
}

impl PodcastInfoPopupState {
    pub fn new() -> (s: PodcastInfoPopupState)
        ensures
            s.spec_scroll() == 0,
    {
        PodcastInfoPopupState { scroll_offset: 0 }
    }

    pub closed spec fn spec_scroll(&self) -> u16 {
        self.scroll_offset
    }

    /// The scroll offset the popup shows at.
    pub fn scroll(&self) -> (r: u16)
        ensures
            r == self.spec_scroll(),
    {
        self.scroll_offset
    }

    /// Scrolls back to the top.
    pub fn first(&mut self)
        ensures
            final(self).spec_scroll() == 0,
    {
        self.scroll_offset = 0;
    }

    /// Scrolls one line up, staying at the top.
    pub fn prev(&mut self)
        ensures
            final(self).spec_scroll() == spec_scroll_up(old(self).spec_scroll()),
    {
        if self.scroll_offset > 0 {
            self.scroll_offset = self.scroll_offset - 1;
        }
    }

    /// Scrolls one line down, saturating.
    pub fn next(&mut self)
        ensures
            final(self).spec_scroll() == spec_scroll_down(old(self).spec_scroll()),
    {
        if self.scroll_offset < u16::MAX {
            self.scroll_offset = self.scroll_offset + 1;
        }
    }
}

/// The scroll state of the episode info popup.
pub struct EpisodeInfoPopupState {
    scroll_offset: u16,
}

impl EpisodeInfoPopupState {
    pub fn new() -> (s: EpisodeInfoPopupState)
        ensures
            s.spec_scroll() == 0,
    {
        EpisodeInfoPopupState { scroll_offset: 0 }
    }

    pub closed spec fn spec_scroll(&self) -> u16 {
        self.scroll_offset
    }

    /// The scroll offset the popup shows at.
    pub fn scroll(&self) -> (r: u16)
        ensures
            r == self.spec_scroll(),
    {
        self.scroll_offset
    }

    /// Scrolls back to the top.
    pub fn first(&mut self)
        ensures
            final(self).spec_scroll() == 0,
    {
        self.scroll_offset = 0;
    }

    /// Scrolls one line up, staying at the top.
    pub fn prev(&mut self)
        ensures
            final(self).spec_scroll() == spec_scroll_up(old(self).spec_scroll()),
    {
        if self.scroll_offset > 0 {
            self.scroll_offset = self.scroll_offset - 1;
        }
    }

    /// Scrolls one line down, saturating.
    pub fn next(&mut self)
        ensures
            final(self).spec_scroll() == spec_scroll_down(old(self).spec_scroll()),
    {
        if self.scroll_offset < u16::MAX {
            self.scroll_offset = self.scroll_offset + 1;
        }
    }
}

/// The state of the add-podcast popup: the editable URL buffer.
pub struct AddPodcastPopupState {
    pub url: String,
}

impl AddPodcastPopupState {
    pub fn new() -> (s: AddPodcastPopupState)
        ensures
            s.url@ == Seq::<char>::empty(),
    {
        AddPodcastPopupState { url: String::new() }
    }
}

/// The add-podcast popup component. What it shows is entirely its state;
/// drawing it lives outside the library.
pub struct AddPodcastPopup {}

impl AddPodcastPopup {
    pub fn new() -> (p: AddPodcastPopup)
    {
        AddPodcastPopup {  }
    }
}

/// The state of the error popup: the message shown to the user.
pub struct ErrorInfoPopupState {
    pub error_msg: String,
}

impl ErrorInfoPopupState {
    pub fn new() -> (s: ErrorInfoPopupState)
        ensures
            s.error_msg@ == Seq::<char>::empty(),
    {
        ErrorInfoPopupState { error_msg: String::new() }
    }
}

/// The error popup component. What it shows is entirely its state;
/// drawing it lives outside the library.
pub struct ErrorInfoPopup {}

impl ErrorInfoPopup {
    pub fn new() -> (p: ErrorInfoPopup)
    {
        ErrorInfoPopup {  }
    }
}

} // verus!
