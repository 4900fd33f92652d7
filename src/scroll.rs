//! The scroll-position state machine of a panel.
//!
//! The offset moves by key presses without knowing how long the content is; it is
//! clamped against the content's bound each time the panel is rendered.
use vstd::prelude::*;
use crate::key::ScrollCommand;

verus! {

/// The largest first-visible line: `max(0, content_length - viewport_height)`.
pub open spec fn max_offset(content_length: int, viewport_height: int) -> int {
    if content_length > viewport_height {
        content_length - viewport_height
    } else {
        0
    }
}

/// The scrollbar to overlay on a panel: a track of `content_length` positions with
/// the thumb at `position`. A length of zero means that no scrollbar is drawn.
#[derive(Clone, Copy, Debug, PartialEq, Eq, Structural)]
pub struct ScrollbarView {
    pub content_length: usize,
    pub position: usize,
}

impl ScrollbarView {
    pub open spec fn is_absent(self) -> bool {
        self.content_length == 0
    }

    /// No scrollbar at all.
    pub fn absent() -> (r: ScrollbarView)
        ensures
            r.is_absent(),
            r.position == 0,
    {
        ScrollbarView { content_length: 0, position: 0 }
    }
}

/// A panel's scroll offset. `at_bottom` pins the view to the last line, whatever
/// the content's length turns out to be when it is drawn.
#[derive(Clone, Copy, Debug, PartialEq, Eq, Structural)]
pub struct ScrollState {
    pub offset: u16,
    pub at_bottom: bool,
}

impl ScrollState {
    /// The first visible line when `content_length` lines are shown in a viewport of
    /// `viewport_height` lines.
    pub open spec fn spec_effective(self, content_length: int, viewport_height: int) -> int {
        let bound = max_offset(content_length, viewport_height);
        if self.at_bottom {
            bound
        } else if self.offset < bound {
            self.offset as int
        } else {
            bound
        }
    }

    pub open spec fn spec_next_line(self) -> ScrollState {
        if self.at_bottom {
            self
        } else if self.offset < u16::MAX {
            ScrollState { offset: (self.offset + 1) as u16, at_bottom: false }
        } else {
            self
        }
    }

    pub open spec fn spec_previous_line(self) -> ScrollState {
        ScrollState {
            offset: if self.offset > 0 { (self.offset - 1) as u16 } else { 0 },
            at_bottom: false,
        }
    }

    pub open spec fn spec_top() -> ScrollState {
        ScrollState { offset: 0, at_bottom: false }
    }

    pub open spec fn spec_bottom(self) -> ScrollState {
        ScrollState { offset: u16::MAX, at_bottom: true }
    }

    pub open spec fn spec_apply(self, command: ScrollCommand) -> ScrollState {
        match command {
            ScrollCommand::NextLine => self.spec_next_line(),
            ScrollCommand::PreviousLine => self.spec_previous_line(),
            ScrollCommand::Top => Self::spec_top(),
            ScrollCommand::Bottom => self.spec_bottom(),
        }
    }

    /// The state after a render: the offset is clamped to the bound, a pin to the
    /// bottom stays.
    pub open spec fn spec_rendered(self, content_length: int, viewport_height: int) -> ScrollState {
        let e = self.spec_effective(content_length, viewport_height);
        ScrollState {
            offset: if e <= u16::MAX { e as u16 } else { u16::MAX },
            at_bottom: self.at_bottom,
        }
    }

    /// The scrollbar for that render: absent when everything fits.
    pub open spec fn spec_scrollbar(self, content_length: int, viewport_height: int) -> ScrollbarView {
        ScrollbarView {
            content_length: max_offset(content_length, viewport_height) as usize,
            position: self.spec_effective(content_length, viewport_height) as usize,
        }
    }

    pub fn new() -> (r: ScrollState)
        ensures
            r == Self::spec_top(),
    {
        ScrollState { offset: 0, at_bottom: false }
    }

    /// The raw offset, before any render clamps it.
    pub fn value(&self) -> (r: u16)
        ensures
            r == self.offset,
    {
        self.offset
    }

    pub fn scroll_to_next_line(&mut self)
        ensures
            *final(self) == old(self).spec_next_line(),
    {
        if !self.at_bottom && self.offset < u16::MAX {
            self.offset = self.offset + 1;
        }
    }

    pub fn scroll_to_previous_line(&mut self)
        ensures
            *final(self) == old(self).spec_previous_line(),
    {
        self.offset = if self.offset > 0 { self.offset - 1 } else { 0 };
        self.at_bottom = false;
    }

    pub fn scroll_to_top(&mut self)
        ensures
            *final(self) == Self::spec_top(),
    {
        self.offset = 0;
        self.at_bottom = false;
    }

    pub fn scroll_to_bottom(&mut self)
        ensures
            *final(self) == old(self).spec_bottom(),
    {
        self.offset = u16::MAX;
        self.at_bottom = true;
    }

    /// Back to the first line, as when the panel's content is replaced.
    pub fn reset(&mut self)
        ensures
            *final(self) == Self::spec_top(),
    {
        self.scroll_to_top();
    }

    /// Runs one scroll operation.
    pub fn apply(&mut self, command: ScrollCommand)
        ensures
            *final(self) == old(self).spec_apply(command),
    {
        match command {
            ScrollCommand::NextLine => self.scroll_to_next_line(),
            ScrollCommand::PreviousLine => self.scroll_to_previous_line(),
            ScrollCommand::Top => self.scroll_to_top(),
            ScrollCommand::Bottom => self.scroll_to_bottom(),
        }
    }

    /// The first visible line for this content and viewport.
    pub fn effective(&self, content_length: usize, viewport_height: usize) -> (r: usize)
        ensures
            r == self.spec_effective(content_length as int, viewport_height as int),
    {
        let bound: usize = if content_length > viewport_height {
            content_length - viewport_height
        } else {
            0
        };
        if self.at_bottom {
            bound
        } else if (self.offset as usize) < bound {
            self.offset as usize
        } else {
            bound
        }
    }

    /// Clamps the offset for a render of `content_length` lines in a viewport of
    /// `viewport_height` lines, and returns the scrollbar to draw.
    pub fn render(&mut self, content_length: usize, viewport_height: usize) -> (r: ScrollbarView)
        ensures
            *final(self) == old(self).spec_rendered(content_length as int, viewport_height as int),
            r == old(self).spec_scrollbar(content_length as int, viewport_height as int),
    {
        let e = self.effective(content_length, viewport_height);
        let bound: usize = if content_length > viewport_height {
            content_length - viewport_height
        } else {
            0
        };
        self.offset = if e <= u16::MAX as usize { e as u16 } else { u16::MAX };
        ScrollbarView { content_length: bound, position: e }
    }
}

impl Default for ScrollState {
    fn default() -> (r: ScrollState)
        ensures
            r == ScrollState::spec_top(),
    {
        ScrollState::new()
    }
}

/// The state after `n` presses of "previous line".
pub open spec fn previous_lines(s: ScrollState, n: nat) -> ScrollState
    decreases n,
{
    if n == 0 {
        s
    } else {
        previous_lines(s, (n - 1) as nat).spec_previous_line()
    }
}

/// The state after `n` presses of "next line".
pub open spec fn next_lines(s: ScrollState, n: nat) -> ScrollState
    decreases n,
{
    if n == 0 {
        s
    } else {
        next_lines(s, (n - 1) as nat).spec_next_line()
    }
}

/// The state after a sequence of scroll operations, from first to last.
pub open spec fn apply_all(s: ScrollState, commands: Seq<ScrollCommand>) -> ScrollState
    decreases commands.len(),
{
    if commands.len() == 0 {
        s
    } else {
        apply_all(s.spec_apply(commands[0]), commands.drop_first())
    }
}

/// Whatever operations ran, the line drawn first lies between 0 and
/// `max(0, content_length - viewport_height)`.
pub proof fn lemma_effective_in_bounds(
    s: ScrollState,
    commands: Seq<ScrollCommand>,
    content_length: nat,
    viewport_height: nat,
)
    ensures
        0 <= apply_all(s, commands).spec_effective(content_length as int, viewport_height as int)
            <= max_offset(content_length as int, viewport_height as int),
{
}

/// Scrolling up from the top stays at the top: the offset does not go below zero.
pub proof fn lemma_top_is_floor(s: ScrollState, n: nat, content_length: nat, viewport_height: nat)
    ensures
        previous_lines(ScrollState::spec_top(), n) == ScrollState::spec_top(),
        previous_lines(s.spec_apply(ScrollCommand::Top), n).spec_effective(
            content_length as int,
            viewport_height as int,
        ) == s.spec_apply(ScrollCommand::Top).spec_effective(
            content_length as int,
            viewport_height as int,
        ),
    decreases n,
{
    if n > 0 {
        lemma_top_is_floor(s, (n - 1) as nat, content_length, viewport_height);
    }
}

/// A view pinned to the bottom follows the content: rendered once, then rendered
/// again after the content grew, it shows the new last page.
pub proof fn lemma_bottom_follows_growth(
    s: ScrollState,
    old_length: nat,
    new_length: nat,
    viewport_height: nat,
)
    requires
        old_length <= new_length,
    ensures
        s.spec_bottom().spec_rendered(old_length as int, viewport_height as int).spec_effective(
            new_length as int,
            viewport_height as int,
        ) == max_offset(new_length as int, viewport_height as int),
{
}

/// When the content fits in the viewport no scrollbar is drawn, whatever the offset.
pub proof fn lemma_no_scrollbar_when_content_fits(
    s: ScrollState,
    content_length: nat,
    viewport_height: nat,
)
    requires
        content_length <= viewport_height,
    ensures
        s.spec_scrollbar(content_length as int, viewport_height as int).is_absent(),
        s.spec_effective(content_length as int, viewport_height as int) == 0,
{
}

/// A render does not move the first visible line.
pub proof fn lemma_render_keeps_effective(
    s: ScrollState,
    content_length: nat,
    viewport_height: nat,
)
    requires
        content_length <= usize::MAX,
    ensures
        s.spec_effective(content_length as int, viewport_height as int) <= u16::MAX ==> s.spec_rendered(
            content_length as int,
            viewport_height as int,
        ).spec_effective(content_length as int, viewport_height as int) == s.spec_effective(
            content_length as int,
            viewport_height as int,
        ),
{
}

/// Once the offset has reached the bound, more presses of "next line" leave the
/// first visible line at the bound.
pub proof fn lemma_next_line_saturates(
    s: ScrollState,
    n: nat,
    content_length: nat,
    viewport_height: nat,
)
    requires
        s.spec_effective(content_length as int, viewport_height as int) == max_offset(
            content_length as int,
            viewport_height as int,
        ),
    ensures
        next_lines(s, n).spec_effective(content_length as int, viewport_height as int)
            == max_offset(content_length as int, viewport_height as int),
    decreases n,
{
    if n > 0 {
        lemma_next_line_saturates(s, (n - 1) as nat, content_length, viewport_height);
    }
}

} // verus!
