//! The closed set of panels that the host holds side by side.
use vstd::prelude::*;
use crate::action::{Action, ComponentName};
use crate::component::{Component, Shortcut};
use crate::help::HelpComponent;
use crate::key::KeyEvent;
use crate::outbox::{Outbox, TuiError};
use crate::record_details::RecordDetailsComponent;
use crate::schemas::SchemasComponent;
use crate::scrollable::VerticalScrollableBlock;
use crate::topic_details::TopicDetailsComponent;

verus! {

pub enum Panel {
    Help(HelpComponent),
    RecordDetails(RecordDetailsComponent),
    Schemas(SchemasComponent),
    TopicDetails(VerticalScrollableBlock<TopicDetailsComponent>),
}

impl Component for Panel {
    open spec fn spec_id(&self) -> ComponentName {
        match self {
            Panel::Help(p) => p.spec_id(),
            Panel::RecordDetails(p) => p.spec_id(),
            Panel::Schemas(p) => p.spec_id(),
            Panel::TopicDetails(p) => p.spec_id(),
        }
    }

    open spec fn spec_shortcuts(&self) -> Seq<(Seq<char>, Seq<char>)> {
        match self {
            Panel::Help(p) => p.spec_shortcuts(),
            Panel::RecordDetails(p) => p.spec_shortcuts(),
            Panel::Schemas(p) => p.spec_shortcuts(),
            Panel::TopicDetails(p) => p.spec_shortcuts(),
        }
    }

    open spec fn key_post(
        &self,
        key: KeyEvent,
        out: (Seq<Action>, bool),
        next: Self,
        next_out: (Seq<Action>, bool),
        r: Result<Option<Action>, TuiError>,
    ) -> bool {
        match (*self, next) {
            (Panel::Help(p), Panel::Help(q)) => p.key_post(key, out, q, next_out, r),
            (Panel::RecordDetails(p), Panel::RecordDetails(q)) => p.key_post(key, out, q, next_out, r),
            (Panel::Schemas(p), Panel::Schemas(q)) => p.key_post(key, out, q, next_out, r),
            (Panel::TopicDetails(p), Panel::TopicDetails(q)) => p.key_post(key, out, q, next_out, r),
            _ => false,
        }
    }

    open spec fn update_post(
        &self,
        action: Action,
        out: (Seq<Action>, bool),
        next: Self,
        next_out: (Seq<Action>, bool),
        r: Result<Option<Action>, TuiError>,
    ) -> bool {
        match (*self, next) {
            (Panel::Help(p), Panel::Help(q)) => p.update_post(action, out, q, next_out, r),
            (Panel::RecordDetails(p), Panel::RecordDetails(q)) => p.update_post(
                action,
                out,
                q,
                next_out,
                r,
            ),
            (Panel::Schemas(p), Panel::Schemas(q)) => p.update_post(action, out, q, next_out, r),
            (Panel::TopicDetails(p), Panel::TopicDetails(q)) => p.update_post(
                action,
                out,
                q,
                next_out,
                r,
            ),
            _ => false,
        }
    }

    fn id(&self) -> (r: ComponentName) {
        match self {
            Panel::Help(p) => p.id(),
            Panel::RecordDetails(p) => p.id(),
            Panel::Schemas(p) => p.id(),
            Panel::TopicDetails(p) => p.id(),
        }
    }

    fn shortcuts(&self) -> (r: Vec<Shortcut>) {
        match self {
            Panel::Help(p) => p.shortcuts(),
            Panel::RecordDetails(p) => p.shortcuts(),
            Panel::Schemas(p) => p.shortcuts(),
            Panel::TopicDetails(p) => p.shortcuts(),
        }
    }

    fn handle_key_events(&mut self, key: KeyEvent, out: &mut Outbox) -> (r: Result<
        Option<Action>,
        TuiError,
    >) {
        match self {
            Panel::Help(p) => p.handle_key_events(key, out),
            Panel::RecordDetails(p) => p.handle_key_events(key, out),
            Panel::Schemas(p) => p.handle_key_events(key, out),
            Panel::TopicDetails(p) => p.handle_key_events(key, out),
        }
    }

    fn update(&mut self, action: &Action, out: &mut Outbox) -> (r: Result<
        Option<Action>,
        TuiError,
    >) {
        match self {
            Panel::Help(p) => p.update(action, out),
            Panel::RecordDetails(p) => p.update(action, out),
            Panel::Schemas(p) => p.update(action, out),
            Panel::TopicDetails(p) => p.update(action, out),
        }
    }
}

} // verus!
