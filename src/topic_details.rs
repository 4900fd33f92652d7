//! The panel showing a topic's partitions and consumer groups, with one group
//! selected at a time.
use vstd::prelude::*;
use crate::action::{
    Action,
    ComponentName,
    ConsumerGroupDetail,
    Level,
    Notification,
    TopicDetail,
    duplicate_details,
    same_details,
};
use crate::component::{Component, Shortcut, WithHeight, shortcut_views};
use crate::key::{KeyCode, KeyEvent, ScrollCommand, scroll_command, spec_scroll_command};
use crate::outbox::{Outbox, TuiError};
use crate::order::{group_views, sorted_group_views, sorted_groups};

verus! {

/// The number of consumer groups over all topics.
pub open spec fn group_total(details: Seq<TopicDetail>) -> nat
    decreases details.len(),
{
    if details.len() == 0 {
        0
    } else {
        group_total(details.drop_last()) + details.last().consumer_groups@.len()
    }
}

/// The topics' names in order, each name once, at its first occurrence.
pub open spec fn distinct_names(details: Seq<TopicDetail>) -> Seq<Seq<char>>
    decreases details.len(),
{
    if details.len() == 0 {
        Seq::empty()
    } else {
        let names = distinct_names(details.drop_last());
        if names.contains(details.last().name@) {
            names
        } else {
            names.push(details.last().name@)
        }
    }
}

/// The selected row after a navigation key, among `count` rows.
pub open spec fn spec_select(selected: Option<usize>, count: nat, command: ScrollCommand) -> Option<usize> {
    if count == 0 {
        None
    } else {
        match command {
            ScrollCommand::NextLine => match selected {
                Some(i) => if i >= count - 1 {
                    Some(i)
                } else {
                    Some((i + 1) as usize)
                },
                None => Some(0),
            },
            ScrollCommand::PreviousLine => match selected {
                Some(i) => if i == 0 {
                    Some(0)
                } else {
                    Some((i - 1) as usize)
                },
                None => Some(0),
            },
            ScrollCommand::Top => Some(0),
            ScrollCommand::Bottom => Some((count - 1) as usize),
        }
    }
}

/// The table's rows, in the order the selection counts them: topic after topic,
/// each topic's consumer groups in ascending order of name.
pub open spec fn display_rows(details: Seq<TopicDetail>) -> Seq<(Seq<char>, nat, nat)>
    decreases details.len(),
{
    if details.len() == 0 {
        Seq::empty()
    } else {
        display_rows(details.drop_last()) + sorted_group_views(details.last().consumer_groups@)
    }
}

pub open spec fn string_views(s: Seq<String>) -> Seq<Seq<char>> {
    s.map_values(|x: String| x@)
}

pub struct TopicDetailsComponent {
    pub details: Vec<TopicDetail>,
    /// The selected consumer group, counted over all topics.
    pub selected: Option<usize>,
    pub refreshing_data: bool,
    /// The frame of the busy indicator.
    pub throbber_index: i8,
}

impl TopicDetailsComponent {
    pub fn new() -> (r: TopicDetailsComponent)
        ensures
            r.details@.len() == 0,
            r.selected.is_none(),
            !r.refreshing_data,
            r.throbber_index == 0,
    {
        TopicDetailsComponent {
            details: Vec::new(),
            selected: None,
            refreshing_data: false,
            throbber_index: 0,
        }
    }

    /// The number of consumer groups, capped to the largest `usize`.
    pub open spec fn spec_group_count(self) -> nat {
        let t = group_total(self.details@);
        if t <= usize::MAX {
            t
        } else {
            usize::MAX as nat
        }
    }

    pub open spec fn spec_refresh_post(
        self,
        out: (Seq<Action>, bool),
        next: Self,
        next_out: (Seq<Action>, bool),
    ) -> bool {
        &&& next.details == self.details
        &&& next.selected == self.selected
        &&& next.refreshing_data
        &&& next.throbber_index == self.throbber_index
        &&& next_out.1 == out.1
        &&& if out.1 {
            let n = out.0.len() as int;
            &&& next_out.0.len() == n + 2
            &&& next_out.0.subrange(0, n) == out.0
            &&& next_out.0[n] matches Action::Notification(note) && note.level == Level::Info
                && note.message@ == "Refreshing data"@
            &&& next_out.0[n + 1] matches Action::RequestTopicDetails(names) && string_views(names@)
                == distinct_names(self.details@)
        } else {
            next_out == out
        }
    }

    pub fn group_count(&self) -> (r: usize)
        ensures
            r as nat == self.spec_group_count(),
    {
        let mut total: usize = 0;
        let mut i: usize = 0;
        while i < self.details.len()
            invariant
                i <= self.details@.len(),
                total as nat == (if group_total(self.details@.take(i as int)) <= usize::MAX {
                    group_total(self.details@.take(i as int))
                } else {
                    usize::MAX as nat
                }),
            decreases self.details@.len() - i,
        {
            assert(self.details@.take(i as int + 1).drop_last() =~= self.details@.take(i as int));
            let n = self.details[i].consumer_groups.len();
            total = if total <= usize::MAX - n {
                total + n
            } else {
                usize::MAX
            };
            i = i + 1;
        }
        assert(self.details@.take(i as int) =~= self.details@);
        total
    }

    /// The consumer groups as the table lists them.
    pub fn rows(&self) -> (r: Vec<ConsumerGroupDetail>)
        ensures
            group_views(r@) == display_rows(self.details@),
    {
        let mut r: Vec<ConsumerGroupDetail> = Vec::new();
        let mut i: usize = 0;
        while i < self.details.len()
            invariant
                i <= self.details@.len(),
                group_views(r@) == display_rows(self.details@.take(i as int)),
            decreases self.details@.len() - i,
        {
            assert(self.details@.take(i as int + 1).drop_last() =~= self.details@.take(i as int));
            let mut sorted = sorted_groups(&self.details[i].consumer_groups);
            let ghost before = r@;
            r.append(&mut sorted);
            assert(group_views(r@) =~= group_views(before) + sorted_group_views(
                self.details@[i as int].consumer_groups@,
            ));
            i = i + 1;
        }
        assert(self.details@.take(i as int) =~= self.details@);
        r
    }

    /// Moves the selection: down, up, to the first or to the last group.
    pub fn select(&mut self, command: ScrollCommand)
        ensures
            final(self).selected == spec_select(
                old(self).selected,
                old(self).spec_group_count(),
                command,
            ),
            final(self).details == old(self).details,
            final(self).refreshing_data == old(self).refreshing_data,
            final(self).throbber_index == old(self).throbber_index,
    {
        let count = self.group_count();
        if count == 0 {
            self.selected = None;
            return ;
        }
        self.selected = match command {
            ScrollCommand::NextLine => match self.selected {
                Some(i) => if i >= count - 1 {
                    Some(i)
                } else {
                    Some(i + 1)
                },
                None => Some(0),
            },
            ScrollCommand::PreviousLine => match self.selected {
                Some(i) => if i == 0 {
                    Some(0)
                } else {
                    Some(i - 1)
                },
                None => Some(0),
            },
            ScrollCommand::Top => Some(0),
            ScrollCommand::Bottom => Some(count - 1),
        };
    }

    pub fn next(&mut self)
        ensures
            final(self).selected == spec_select(
                old(self).selected,
                old(self).spec_group_count(),
                ScrollCommand::NextLine,
            ),
            final(self).details == old(self).details,
            final(self).refreshing_data == old(self).refreshing_data,
            final(self).throbber_index == old(self).throbber_index,
    {
        self.select(ScrollCommand::NextLine)
    }

    pub fn previous(&mut self)
        ensures
            final(self).selected == spec_select(
                old(self).selected,
                old(self).spec_group_count(),
                ScrollCommand::PreviousLine,
            ),
            final(self).details == old(self).details,
            final(self).refreshing_data == old(self).refreshing_data,
            final(self).throbber_index == old(self).throbber_index,
    {
        self.select(ScrollCommand::PreviousLine)
    }

    pub fn first(&mut self)
        ensures
            final(self).selected == spec_select(
                old(self).selected,
                old(self).spec_group_count(),
                ScrollCommand::Top,
            ),
            final(self).details == old(self).details,
            final(self).refreshing_data == old(self).refreshing_data,
            final(self).throbber_index == old(self).throbber_index,
    {
        self.select(ScrollCommand::Top)
    }

    pub fn last(&mut self)
        ensures
            final(self).selected == spec_select(
                old(self).selected,
                old(self).spec_group_count(),
                ScrollCommand::Bottom,
            ),
            final(self).details == old(self).details,
            final(self).refreshing_data == old(self).refreshing_data,
            final(self).throbber_index == old(self).throbber_index,
    {
        self.select(ScrollCommand::Bottom)
    }

    /// The names of the topics shown, each once, in order of first appearance.
    pub fn topic_names(&self) -> (r: Vec<String>)
        ensures
            string_views(r@) == distinct_names(self.details@),
    {
        let mut names: Vec<String> = Vec::new();
        let mut i: usize = 0;
        while i < self.details.len()
            invariant
                i <= self.details@.len(),
                string_views(names@) == distinct_names(self.details@.take(i as int)),
            decreases self.details@.len() - i,
        {
            let ghost prefix = self.details@.take(i as int + 1);
            assert(prefix.drop_last() =~= self.details@.take(i as int));
            assert(prefix.last() == self.details@[i as int]);
            let name = &self.details[i].name;
            let mut found = false;
            let mut j: usize = 0;
            while j < names.len()
                invariant
                    j <= names@.len(),
                    found == exists|k: int| 0 <= k < j && #[trigger] names@[k]@ == name@,
                decreases names@.len() - j,
            {
                if names[j] == *name {
                    found = true;
                }
                j = j + 1;
            }
            proof {
                let views = string_views(names@);
                if found {
                    let k = choose|k: int| 0 <= k < names@.len() && #[trigger] names@[k]@ == name@;
                    assert(views[k] == name@);
                } else {
                    assert forall|k: int| 0 <= k < views.len() implies views[k] != name@ by {
                        assert(names@[k]@ != name@);
                    }
                }
            }
            if !found {
                names.push(name.clone());
                assert(string_views(names@) =~= distinct_names(self.details@.take(i as int)).push(
                    name@,
                ));
            }
            i = i + 1;
        }
        assert(self.details@.take(i as int) =~= self.details@);
        names
    }

    /// Asks the host for fresh data on the topics shown, and marks the panel busy.
    pub fn refresh(&mut self, out: &mut Outbox)
        ensures
            old(self).spec_refresh_post(old(out)@, *final(self), final(out)@),
    {
        let names = self.topic_names();
        self.refreshing_data = true;
        let note = Action::Notification(
            Notification { level: Level::Info, message: "Refreshing data".to_owned() },
        );
        let _ = out.publish(note);
        let _ = out.publish(Action::RequestTopicDetails(names));
        proof {
            if old(out)@.1 {
                let n = old(out)@.0.len() as int;
                assert(final(out)@.0.subrange(0, n) =~= old(out)@.0);
            }
        }
    }
}

impl WithHeight for TopicDetailsComponent {
    open spec fn spec_content_height(&self) -> nat {
        self.spec_group_count()
    }

    fn content_height(&self) -> (r: usize) {
        self.group_count()
    }
}

impl Component for TopicDetailsComponent {
    open spec fn spec_id(&self) -> ComponentName {
        ComponentName::TopicDetails
    }

    open spec fn spec_shortcuts(&self) -> Seq<(Seq<char>, Seq<char>)> {
        Seq::empty()
    }

    open spec fn key_post(
        &self,
        key: KeyEvent,
        out: (Seq<Action>, bool),
        next: Self,
        next_out: (Seq<Action>, bool),
        r: Result<Option<Action>, TuiError>,
    ) -> bool {
        &&& r == Ok::<Option<Action>, TuiError>(None)
        &&& match spec_scroll_command(key.code) {
            Some(command) => {
                &&& next.selected == spec_select(self.selected, self.spec_group_count(), command)
                &&& next.details == self.details
                &&& next.refreshing_data == self.refreshing_data
                &&& next.throbber_index == self.throbber_index
                &&& next_out == out
            },
            None => if key.code == KeyCode::Char('p') && key.ctrl {
                self.spec_refresh_post(out, next, next_out)
            } else {
                next == *self && next_out == out
            },
        }
    }

    open spec fn update_post(
        &self,
        action: Action,
        out: (Seq<Action>, bool),
        next: Self,
        next_out: (Seq<Action>, bool),
        r: Result<Option<Action>, TuiError>,
    ) -> bool {
        &&& r == Ok::<Option<Action>, TuiError>(None)
        &&& next_out == out
        &&& match action {
            Action::Tick => {
                &&& next.throbber_index == (if self.throbber_index < i8::MAX {
                    self.throbber_index + 1
                } else {
                    0
                })
                &&& next.details == self.details
                &&& next.selected == self.selected
                &&& next.refreshing_data == self.refreshing_data
            },
            Action::TopicDetails(details) => {
                &&& same_details(next.details@, details@)
                &&& next.selected == self.selected
                &&& !next.refreshing_data
                &&& next.throbber_index == self.throbber_index
            },
            Action::RequestTopicDetails(_) => {
                &&& next.details == self.details
                &&& next.selected == self.selected
                &&& next.refreshing_data == (self.refreshing_data || self.details@.len() > 0)
                &&& next.throbber_index == self.throbber_index
            },
            _ => next == *self,
        }
    }

    fn id(&self) -> (r: ComponentName) {
        ComponentName::TopicDetails
    }

    fn shortcuts(&self) -> (r: Vec<Shortcut>) {
        let r: Vec<Shortcut> = Vec::new();
        assert(shortcut_views(r@) =~= Seq::empty());
        r
    }

    fn handle_key_events(&mut self, key: KeyEvent, out: &mut Outbox) -> (r: Result<
        Option<Action>,
        TuiError,
    >) {
        proof {
            assert(old(out)@.0.subrange(0, old(out)@.0.len() as int) =~= old(out)@.0);
        }
        match scroll_command(key.code) {
            Some(command) => self.select(command),
            None => {
                if key.code == KeyCode::Char('p') && key.ctrl {
                    self.refresh(out);
                }
            },
        }
        Ok(None)
    }

    fn update(&mut self, action: &Action, out: &mut Outbox) -> (r: Result<
        Option<Action>,
        TuiError,
    >) {
        proof {
            assert(old(out)@.0.subrange(0, old(out)@.0.len() as int) =~= old(out)@.0);
        }
        match action {
            Action::Tick => {
                self.throbber_index = if self.throbber_index < i8::MAX {
                    self.throbber_index + 1
                } else {
                    0
                };
            },
            Action::TopicDetails(details) => {
                self.refreshing_data = false;
                self.details = duplicate_details(details);
            },
            Action::RequestTopicDetails(_) => {
                if self.details.len() > 0 {
                    self.refreshing_data = true;
                }
            },
            _ => {},
        }
        Ok(None)
    }
}

} // verus!
