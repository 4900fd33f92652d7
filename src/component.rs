//! The capabilities every panel exposes so that the host can treat panels alike.
use vstd::prelude::*;
use crate::action::{Action, ComponentName};
use crate::key::{Event, KeyEvent, MouseEvent};
use crate::outbox::{Outbox, TuiError};

verus! {

/// The read-only snapshot of the interface handed to every draw.
#[derive(Clone, Copy, Debug, PartialEq, Eq, Structural)]
pub struct RenderContext {
    pub focused: ComponentName,
}

/// How a panel's border is drawn.
#[derive(Clone, Copy, Debug, PartialEq, Eq, Structural)]
pub enum BorderKind {
    Plain,
    Rounded,
    Thick,
}

/// The visual frame around a panel.
#[derive(Clone, Copy, Debug, PartialEq, Eq, Structural)]
pub struct Decoration {
    pub border: BorderKind,
    pub emphasized: bool,
}

/// The frame of the panel `id`: emphasized with a thick border when the panel has
/// the focus, else as it was given.
pub open spec fn spec_focus_decoration(
    id: ComponentName,
    context: RenderContext,
    block: Decoration,
) -> Decoration {
    if context.focused == id {
        Decoration { border: BorderKind::Thick, emphasized: true }
    } else {
        block
    }
}

/// A key binding shown in the status bar: the key's label and what it does.
#[derive(Clone, Debug)]
pub struct Shortcut {
    pub key: String,
    pub description: String,
}

impl View for Shortcut {
    type V = (Seq<char>, Seq<char>);

    open spec fn view(&self) -> (Seq<char>, Seq<char>) {
        (self.key@, self.description@)
    }
}

impl Shortcut {
    pub fn new(key: &str, description: &str) -> (r: Shortcut)
        ensures
            r@ == (key@, description@),
    {
        Shortcut { key: key.to_owned(), description: description.to_owned() }
    }
}

pub open spec fn shortcut_views(s: Seq<Shortcut>) -> Seq<(Seq<char>, Seq<char>)> {
    s.map_values(|x: Shortcut| x@)
}

/// `next` keeps every action of `out` in place and the queue's state: a panel
/// only ever appends, and nothing enters a closed queue.
pub open spec fn extends(out: (Seq<Action>, bool), next: (Seq<Action>, bool)) -> bool {
    &&& next.1 == out.1
    &&& out.0.len() <= next.0.len()
    &&& next.0.subrange(0, out.0.len() as int) == out.0
    &&& !out.1 ==> next == out
}

/// A panel. Its handlers mutate only the panel itself and the queue it publishes
/// into, and never fail for want of a receiver.
pub trait Component: Sized {
    spec fn spec_id(&self) -> ComponentName;

    spec fn spec_shortcuts(&self) -> Seq<(Seq<char>, Seq<char>)>;

    /// What handling `key` does: from this panel and queue `out` to `next` and
    /// `next_out`, with result `r`.
    spec fn key_post(
        &self,
        key: KeyEvent,
        out: (Seq<Action>, bool),
        next: Self,
        next_out: (Seq<Action>, bool),
        r: Result<Option<Action>, TuiError>,
    ) -> bool;

    /// What receiving `action` does.
    spec fn update_post(
        &self,
        action: Action,
        out: (Seq<Action>, bool),
        next: Self,
        next_out: (Seq<Action>, bool),
        r: Result<Option<Action>, TuiError>,
    ) -> bool;

    /// A stable identifier, used for focus and routing.
    fn id(&self) -> (r: ComponentName)
        ensures
            r == self.spec_id(),
    ;

    /// The key bindings that mean something while this panel has the focus.
    fn shortcuts(&self) -> (r: Vec<Shortcut>)
        ensures
            shortcut_views(r@) == self.spec_shortcuts(),
    ;

    fn handle_key_events(&mut self, key: KeyEvent, out: &mut Outbox) -> (r: Result<
        Option<Action>,
        TuiError,
    >)
        ensures
            old(self).key_post(key, old(out)@, *final(self), final(out)@, r),
            extends(old(out)@, final(out)@),
    ;

    /// Receives a published action; one that the panel does not care about changes
    /// nothing.
    fn update(&mut self, action: &Action, out: &mut Outbox) -> (r: Result<
        Option<Action>,
        TuiError,
    >)
        ensures
            old(self).update_post(*action, old(out)@, *final(self), final(out)@, r),
            extends(old(out)@, final(out)@),
    ;

    /// Pointer input is ignored.
    fn handle_mouse_events(&mut self, mouse: MouseEvent, out: &mut Outbox) -> (r: Result<
        Option<Action>,
        TuiError,
    >)
        ensures
            *final(self) == *old(self),
            final(out)@ == old(out)@,
            r == Ok::<Option<Action>, TuiError>(None),
    {
        Ok(None)
    }

    /// Routes an event to the key or mouse handler; other events change nothing.
    fn handle_events(&mut self, event: Event, out: &mut Outbox) -> (r: Result<
        Option<Action>,
        TuiError,
    >)
        ensures
            match event {
                Event::Key(key) => old(self).key_post(key, old(out)@, *final(self), final(out)@, r),
                _ => *final(self) == *old(self) && final(out)@ == old(out)@ && r == Ok::<
                    Option<Action>,
                    TuiError,
                >(None),
            },
            extends(old(out)@, final(out)@),
    {
        proof {
            assert(old(out)@.0.subrange(0, old(out)@.0.len() as int) =~= old(out)@.0);
        }
        match event {
            Event::Key(key) => self.handle_key_events(key, out),
            Event::Mouse(mouse) => self.handle_mouse_events(mouse, out),
            _ => Ok(None),
        }
    }

    /// The frame to draw this panel in: emphasized when it has the focus.
    fn make_block_focused(&self, context: &RenderContext, block: Decoration) -> (r: Decoration)
        ensures
            r == spec_focus_decoration(self.spec_id(), *context, block),
    {
        if context.focused == self.id() {
            Decoration { border: BorderKind::Thick, emphasized: true }
        } else {
            block
        }
    }
}

/// A panel that can tell how many lines its content takes.
pub trait WithHeight {
    spec fn spec_content_height(&self) -> nat;

    fn content_height(&self) -> (r: usize)
        ensures
            r as nat == self.spec_content_height(),
    ;
}

} // verus!
