//! A decorator that adds a vertical scrollbar to any panel that knows its height.
use vstd::prelude::*;
use crate::action::{Action, ComponentName};
use crate::component::{Component, Shortcut, WithHeight};
use crate::key::{KeyEvent, ScrollCommand, is_scroll_key, scroll_command, spec_scroll_command};
use crate::outbox::{Outbox, TuiError};
use crate::scroll::ScrollbarView;

verus! {

/// Rows taken by the frame around the inner panel, added to the scroll range.
pub const FRAME_MARGIN: u16 = 2;

/// The decorator's offset after a scroll key, bounded by its scroll range. A view
/// pinned to the bottom stays there on "next line".
pub open spec fn spec_block_scroll(
    scroll: u16,
    scroll_length: u16,
    pinned: bool,
    command: ScrollCommand,
) -> u16 {
    match command {
        ScrollCommand::NextLine => if pinned {
            scroll
        } else if scroll < scroll_length {
            (scroll + 1) as u16
        } else {
            scroll_length
        },
        ScrollCommand::PreviousLine => if scroll > 0 {
            (scroll - 1) as u16
        } else {
            0
        },
        ScrollCommand::Top => 0,
        ScrollCommand::Bottom => scroll_length,
    }
}

/// Whether the view is pinned to the bottom after a scroll key: "bottom" pins it,
/// "previous line" and "top" release it.
pub open spec fn spec_block_pinned(pinned: bool, command: ScrollCommand) -> bool {
    match command {
        ScrollCommand::NextLine => pinned,
        ScrollCommand::PreviousLine => false,
        ScrollCommand::Top => false,
        ScrollCommand::Bottom => true,
    }
}

/// The offset drawn with a scroll range of `scroll_length`: the end of the range
/// when pinned to the bottom, else the offset clamped into the range.
pub open spec fn spec_render_offset(pinned: bool, scroll: u16, scroll_length: u16) -> u16 {
    if pinned || scroll >= scroll_length {
        scroll_length
    } else {
        scroll
    }
}

/// The inner panel's height as the decorator counts it, capped to a screen row index.
pub open spec fn capped_height(height: nat) -> int {
    if height <= u16::MAX {
        height as int
    } else {
        u16::MAX as int
    }
}

/// The scroll range for content of `content_height` rows in `viewport_height`
/// rows: the overflow plus the frame, or zero when the content fits.
pub open spec fn spec_scroll_length(content_height: nat, viewport_height: u16) -> u16 {
    let h = capped_height(content_height);
    if viewport_height < h {
        let l = h - viewport_height + FRAME_MARGIN;
        if l <= u16::MAX {
            l as u16
        } else {
            u16::MAX
        }
    } else {
        0
    }
}

/// Wraps `component`: the scroll keys move the decorator's own offset, everything
/// else reaches the inner panel unchanged.
pub struct VerticalScrollableBlock<C> {
    pub scroll: u16,
    pub scroll_length: u16,
    /// Pinned to the bottom: the offset follows the end of the content as it grows.
    pub at_bottom: bool,
    pub component: C,
}

impl<C: Component + WithHeight> VerticalScrollableBlock<C> {
    pub fn new(component: C) -> (r: Self)
        ensures
            r.scroll == 0,
            r.scroll_length == 10,
            !r.at_bottom,
            r.component == component,
    {
        VerticalScrollableBlock { scroll: 0, scroll_length: 10, at_bottom: false, component }
    }

    pub fn inner(&self) -> (r: &C)
        ensures
            *r == self.component,
    {
        &self.component
    }

    /// Prepares a draw in a viewport of `viewport_height` rows: recomputes the scroll
    /// range, clamps the offset into it, and returns the scrollbar to overlay. When
    /// the content fits, the offset goes back to 0 and there is no scrollbar.
    pub fn render_scroll(&mut self, viewport_height: u16) -> (r: ScrollbarView)
        ensures
            final(self).component == old(self).component,
            final(self).scroll_length == spec_scroll_length(
                old(self).component.spec_content_height(),
                viewport_height,
            ),
            final(self).scroll == spec_render_offset(
                old(self).at_bottom,
                old(self).scroll,
                final(self).scroll_length,
            ),
            final(self).scroll <= final(self).scroll_length,
            final(self).at_bottom == old(self).at_bottom,
            r.content_length == final(self).scroll_length as usize,
            r.position == final(self).scroll as usize,
            capped_height(old(self).component.spec_content_height()) <= viewport_height
                ==> r.is_absent() && final(self).scroll == 0,
    {
        let height = self.component.content_height();
        let content_height: u16 = if height <= u16::MAX as usize {
            height as u16
        } else {
            u16::MAX
        };
        if viewport_height < content_height {
            let overflow = content_height - viewport_height;
            self.scroll_length = if overflow <= u16::MAX - FRAME_MARGIN {
                overflow + FRAME_MARGIN
            } else {
                u16::MAX
            };
            if self.at_bottom || self.scroll > self.scroll_length {
                self.scroll = self.scroll_length;
            }
            ScrollbarView {
                content_length: self.scroll_length as usize,
                position: self.scroll as usize,
            }
        } else {
            self.scroll_length = 0;
            self.scroll = 0;
            ScrollbarView::absent()
        }
    }
}

impl<C: Component + WithHeight> Component for VerticalScrollableBlock<C> {
    open spec fn spec_id(&self) -> ComponentName {
        self.component.spec_id()
    }

    open spec fn spec_shortcuts(&self) -> Seq<(Seq<char>, Seq<char>)> {
        self.component.spec_shortcuts()
    }

    open spec fn key_post(
        &self,
        key: KeyEvent,
        out: (Seq<Action>, bool),
        next: Self,
        next_out: (Seq<Action>, bool),
        r: Result<Option<Action>, TuiError>,
    ) -> bool {
        match spec_scroll_command(key.code) {
            Some(command) => {
                &&& next.scroll == spec_block_scroll(
                    self.scroll,
                    self.scroll_length,
                    self.at_bottom,
                    command,
                )
                &&& next.at_bottom == spec_block_pinned(self.at_bottom, command)
                &&& next.scroll_length == self.scroll_length
                &&& next.component == self.component
                &&& next_out == out
                &&& r == Ok::<Option<Action>, TuiError>(None)
            },
            None => {
                &&& next.scroll == self.scroll
                &&& next.scroll_length == self.scroll_length
                &&& next.at_bottom == self.at_bottom
                &&& self.component.key_post(key, out, next.component, next_out, r)
            },
        }
    }

    open spec fn update_post(
        &self,
        action: Action,
        out: (Seq<Action>, bool),
        next: Self,
        next_out: (Seq<Action>, bool),
        r: Result<Option<Action>, TuiError>,
    ) -> bool {
        &&& next.scroll == self.scroll
        &&& next.scroll_length == self.scroll_length
        &&& next.at_bottom == self.at_bottom
        &&& self.component.update_post(action, out, next.component, next_out, r)
    }

    fn id(&self) -> (r: ComponentName) {
        self.component.id()
    }

    fn shortcuts(&self) -> (r: Vec<Shortcut>) {
        self.component.shortcuts()
    }

    fn handle_key_events(&mut self, key: KeyEvent, out: &mut Outbox) -> (r: Result<
        Option<Action>,
        TuiError,
    >) {
        proof {
            assert(old(out)@.0.subrange(0, old(out)@.0.len() as int) =~= old(out)@.0);
        }
        match scroll_command(key.code) {
            Some(ScrollCommand::NextLine) => {
                self.scroll = if self.at_bottom {
                    self.scroll
                } else if self.scroll < self.scroll_length {
                    self.scroll + 1
                } else {
                    self.scroll_length
                };
                Ok(None)
            },
            Some(ScrollCommand::PreviousLine) => {
                self.scroll = if self.scroll > 0 {
                    self.scroll - 1
                } else {
                    0
                };
                self.at_bottom = false;
                Ok(None)
            },
            Some(ScrollCommand::Top) => {
                self.scroll = 0;
                self.at_bottom = false;
                Ok(None)
            },
            Some(ScrollCommand::Bottom) => {
                self.scroll = self.scroll_length;
                self.at_bottom = true;
                Ok(None)
            },
            None => self.component.handle_key_events(key, out),
        }
    }

    fn update(&mut self, action: &Action, out: &mut Outbox) -> (r: Result<
        Option<Action>,
        TuiError,
    >) {
        self.component.update(action, out)
    }
}

/// For any key outside the scroll vocabulary, and for every action, the decorator
/// behaves as its inner panel called directly: same result, same published
/// actions, same new inner state, and its own offset untouched. Its identity and
/// shortcuts are the inner panel's.
pub proof fn lemma_decorator_delegates<C: Component + WithHeight>(
    block: VerticalScrollableBlock<C>,
    key: KeyEvent,
    action: Action,
    out: (Seq<Action>, bool),
    next: VerticalScrollableBlock<C>,
    next_out: (Seq<Action>, bool),
    r: Result<Option<Action>, TuiError>,
)
    requires
        !is_scroll_key(key),
    ensures
        block.key_post(key, out, next, next_out, r) <==> (next.scroll == block.scroll
            && next.scroll_length == block.scroll_length && next.at_bottom == block.at_bottom
            && block.component.key_post(
            key,
            out,
            next.component,
            next_out,
            r,
        )),
        block.update_post(action, out, next, next_out, r) <==> (next.scroll == block.scroll
            && next.scroll_length == block.scroll_length && next.at_bottom == block.at_bottom
            && block.component.update_post(
            action,
            out,
            next.component,
            next_out,
            r,
        )),
        block.spec_id() == block.component.spec_id(),
        block.spec_shortcuts() == block.component.spec_shortcuts(),
{
}

/// Scrolling to the bottom pins the decorator there: whatever scroll range the
/// next draws compute, as the inner content grows, the offset drawn is its end.
pub proof fn lemma_block_bottom_follows_growth<C: Component + WithHeight>(
    block: VerticalScrollableBlock<C>,
    key: KeyEvent,
    out: (Seq<Action>, bool),
    next: VerticalScrollableBlock<C>,
    next_out: (Seq<Action>, bool),
    r: Result<Option<Action>, TuiError>,
    content_height: nat,
    viewport_height: u16,
)
    requires
        spec_scroll_command(key.code) == Some(ScrollCommand::Bottom),
        block.key_post(key, out, next, next_out, r),
    ensures
        next.at_bottom,
        spec_render_offset(
            next.at_bottom,
            next.scroll,
            spec_scroll_length(content_height, viewport_height),
        ) == spec_scroll_length(content_height, viewport_height),
{
}

/// Whatever keys were pressed, the offset drawn lies within the scroll range of
/// that draw, and is 0 when the content fits.
pub proof fn lemma_block_offset_in_range(
    pinned: bool,
    scroll: u16,
    content_height: nat,
    viewport_height: u16,
)
    ensures
        spec_render_offset(pinned, scroll, spec_scroll_length(content_height, viewport_height))
            <= spec_scroll_length(content_height, viewport_height),
        capped_height(content_height) <= viewport_height ==> spec_render_offset(
            pinned,
            scroll,
            spec_scroll_length(content_height, viewport_height),
        ) == 0,
{
}

} // verus!
