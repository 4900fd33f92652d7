//! The help panel: a long scrollable text, with a reminder shown after it has been
//! left open for a long time.
use vstd::prelude::*;
use crate::action::{Action, ComponentName, Header};
use crate::order::{sorted_header_views, sorted_headers};
use crate::component::{Component, Shortcut, shortcut_views};
use crate::key::{KeyEvent, scroll_command, spec_scroll_command};
use crate::outbox::{Outbox, TuiError};
use crate::scroll::{ScrollState, ScrollbarView};

verus! {

/// About ten minutes of frames at thirty frames a second.
pub const TEN_MINUTES_FRAME: usize = 30 * 60 * 10;

/// Width kept for the labels of the help text.
pub const LABEL_WIDTH: u16 = 84;

/// Characters kept of a value when the screen leaves no room beside the labels.
pub const NARROW_VALUE_WIDTH: usize = 30;

/// How many characters of a value fit beside the labels on a screen `width` wide.
pub open spec fn spec_value_width(width: u16) -> nat {
    if width >= LABEL_WIDTH {
        (width - LABEL_WIDTH) as nat
    } else {
        NARROW_VALUE_WIDTH as nat
    }
}

/// The first `spec_value_width(width)` characters of `s`, or all of it.
pub open spec fn spec_truncate(width: u16, s: Seq<char>) -> Seq<char> {
    if s.len() <= spec_value_width(width) {
        s
    } else {
        s.take(spec_value_width(width) as int)
    }
}

pub struct HelpComponent {
    pub scroll: ScrollState,
    /// Frames drawn since the last key press.
    pub rendered: usize,
}

impl HelpComponent {
    pub fn new() -> (r: HelpComponent)
        ensures
            r.scroll == ScrollState::spec_top(),
            r.rendered == 0,
    {
        HelpComponent { scroll: ScrollState::new(), rendered: 0 }
    }

    /// Cuts a value so that it fits beside the labels on a screen `width` wide.
    pub fn truncate_str(width: u16, s: &str) -> (r: String)
        ensures
            r@ == spec_truncate(width, s@),
    {
        let max_len: usize = if width >= LABEL_WIDTH {
            (width - LABEL_WIDTH) as usize
        } else {
            NARROW_VALUE_WIDTH
        };
        if s.unicode_len() <= max_len {
            s.to_owned()
        } else {
            s.substring_char(0, max_len).to_owned()
        }
    }

    /// Prepares one frame of `content_length` lines in `viewport_height` lines: clamps
    /// the scroll, counts the frame, and tells whether the reminder is due.
    pub fn frame(&mut self, content_length: usize, viewport_height: usize) -> (r: (
        ScrollbarView,
        bool,
    ))
        ensures
            r.0 == old(self).scroll.spec_scrollbar(content_length as int, viewport_height as int),
            final(self).scroll == old(self).scroll.spec_rendered(
                content_length as int,
                viewport_height as int,
            ),
            r.1 == (old(self).rendered > TEN_MINUTES_FRAME),
            final(self).rendered == if old(self).rendered < usize::MAX {
                (old(self).rendered + 1) as usize
            } else {
                usize::MAX
            },
    {
        let show_issue = self.rendered > TEN_MINUTES_FRAME;
        let scrollbar = self.scroll.render(content_length, viewport_height);
        if self.rendered < usize::MAX {
            self.rendered = self.rendered + 1;
        }
        (scrollbar, show_issue)
    }
}

impl Component for HelpComponent {
    open spec fn spec_id(&self) -> ComponentName {
        ComponentName::Help
    }

    open spec fn spec_shortcuts(&self) -> Seq<(Seq<char>, Seq<char>)> {
        Seq::empty()
    }

    open spec fn key_post(
        &self,
        key: KeyEvent,
        out: (Seq<Action>, bool),
        next: Self,
        next_out: (Seq<Action>, bool),
        r: Result<Option<Action>, TuiError>,
    ) -> bool {
        &&& r == Ok::<Option<Action>, TuiError>(None)
        &&& next_out == out
        &&& next.rendered == 0
        &&& next.scroll == match spec_scroll_command(key.code) {
            Some(command) => self.scroll.spec_apply(command),
            None => self.scroll,
        }
    }

    open spec fn update_post(
        &self,
        action: Action,
        out: (Seq<Action>, bool),
        next: Self,
        next_out: (Seq<Action>, bool),
        r: Result<Option<Action>, TuiError>,
    ) -> bool {
        r == Ok::<Option<Action>, TuiError>(None) && next_out == out && next == *self
    }

    fn id(&self) -> (r: ComponentName) {
        ComponentName::Help
    }

    fn shortcuts(&self) -> (r: Vec<Shortcut>) {
        let r: Vec<Shortcut> = Vec::new();
        assert(shortcut_views(r@) =~= Seq::empty());
        r
    }

    fn handle_key_events(&mut self, key: KeyEvent, out: &mut Outbox) -> (r: Result<
        Option<Action>,
        TuiError,
    >) {
        proof {
            assert(old(out)@.0.subrange(0, old(out)@.0.len() as int) =~= old(out)@.0);
        }
        self.rendered = 0;
        match scroll_command(key.code) {
            Some(command) => self.scroll.apply(command),
            None => {},
        }
        Ok(None)
    }

    fn update(&mut self, action: &Action, out: &mut Outbox) -> (r: Result<
        Option<Action>,
        TuiError,
    >) {
        proof {
            assert(old(out)@.0.subrange(0, old(out)@.0.len() as int) =~= old(out)@.0);
        }
        Ok(None)
    }
}

/// The configuration properties shown in the help panel: in ascending order of
/// key, without the sensitive ones, each value cut to fit a screen `width` wide.
pub open spec fn visible_properties(
    properties: Seq<(Seq<char>, Seq<char>)>,
    sensitive: Seq<Seq<char>>,
    width: u16,
) -> Seq<(Seq<char>, Seq<char>)>
    decreases properties.len(),
{
    if properties.len() == 0 {
        Seq::empty()
    } else {
        let rest = visible_properties(properties.drop_last(), sensitive, width);
        let (k, v) = properties.last();
        if sensitive.contains(k) {
            rest
        } else {
            rest.push((k, spec_truncate(width, v)))
        }
    }
}

pub open spec fn pair_views(s: Seq<(String, String)>) -> Seq<(Seq<char>, Seq<char>)> {
    s.map_values(|p: (String, String)| (p.0@, p.1@))
}

impl HelpComponent {
    /// The (key, value) lines of the configuration section, for a screen `width`
    /// wide: properties whose key is listed in `sensitive` are left out.
    pub fn config_lines(properties: &Vec<Header>, sensitive: &Vec<String>, width: u16) -> (r: Vec<
        (String, String),
    >)
        ensures
            pair_views(r@) == visible_properties(
                sorted_header_views(properties@),
                sensitive@.map_values(|s: String| s@),
                width,
            ),
    {
        let sorted = sorted_headers(properties);
        let ghost views = sorted_header_views(properties@);
        let ghost hidden = sensitive@.map_values(|s: String| s@);
        let mut r: Vec<(String, String)> = Vec::new();
        let mut i: usize = 0;
        while i < sorted.len()
            invariant
                i <= sorted@.len(),
                views == crate::order::header_views(sorted@),
                hidden == sensitive@.map_values(|s: String| s@),
                pair_views(r@) == visible_properties(views.take(i as int), hidden, width),
            decreases sorted@.len() - i,
        {
            let h = &sorted[i];
            let ghost kv = (h.key@, h.value@);
            assert(views.take(i as int + 1).drop_last() =~= views.take(i as int));
            assert(views.take(i as int + 1).last() == kv);
            let mut found = false;
            let mut j: usize = 0;
            while j < sensitive.len()
                invariant
                    j <= sensitive@.len(),
                    hidden == sensitive@.map_values(|s: String| s@),
                    found == exists|k: int| 0 <= k < j && #[trigger] hidden[k] == h.key@,
                decreases sensitive@.len() - j,
            {
                assert(hidden[j as int] == sensitive@[j as int]@);
                if sensitive[j] == h.key {
                    found = true;
                }
                j = j + 1;
            }
            proof {
                if found {
                    let k = choose|k: int| 0 <= k < sensitive@.len() && #[trigger] hidden[k] == h.key@;
                    assert(hidden.contains(h.key@));
                } else {
                    assert(!hidden.contains(h.key@));
                }
            }
            if !found {
                let ghost before = pair_views(r@);
                r.push((h.key.clone(), HelpComponent::truncate_str(width, h.value.as_str())));
                assert(pair_views(r@) =~= before.push((h.key@, spec_truncate(width, h.value@))));
            }
            i = i + 1;
        }
        assert(views.take(i as int) =~= views);
        r
    }
}

} // verus!
