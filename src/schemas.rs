//! The panel showing the schemas of the selected record's key and value.
use vstd::prelude::*;
use crate::action::{
    Action,
    ClipboardContent,
    ComponentName,
    ExportedSchemasDetails,
    SchemaDetail,
    duplicate_detail_option,
};
use crate::component::{Component, Shortcut, shortcut_views};
use crate::key::{KeyCode, KeyEvent, scroll_command, spec_scroll_command};
use crate::outbox::{Outbox, TuiError, sends};
use crate::scroll::{ScrollState, ScrollbarView};

verus! {

pub struct SchemasComponent {
    pub key: Option<SchemaDetail>,
    pub value: Option<SchemaDetail>,
    pub scroll: ScrollState,
}

impl SchemasComponent {
    pub fn new() -> (r: SchemasComponent)
        ensures
            r.key.is_none(),
            r.value.is_none(),
            r.scroll == ScrollState::spec_top(),
    {
        SchemasComponent { key: None, value: None, scroll: ScrollState::new() }
    }

    /// What a copy puts on the clipboard: both schemas as they are.
    pub open spec fn spec_copy(self) -> Action {
        Action::CopyToClipboard(
            ClipboardContent::Schemas(ExportedSchemasDetails { key: self.key, value: self.value }),
        )
    }

    /// Prepares a draw of `content_length` lines in `viewport_height` lines.
    pub fn frame(&mut self, content_length: usize, viewport_height: usize) -> (r: ScrollbarView)
        ensures
            r == old(self).scroll.spec_scrollbar(content_length as int, viewport_height as int),
            final(self).scroll == old(self).scroll.spec_rendered(
                content_length as int,
                viewport_height as int,
            ),
            final(self).key == old(self).key,
            final(self).value == old(self).value,
    {
        self.scroll.render(content_length, viewport_height)
    }
}

impl Component for SchemasComponent {
    open spec fn spec_id(&self) -> ComponentName {
        ComponentName::Schemas
    }

    open spec fn spec_shortcuts(&self) -> Seq<(Seq<char>, Seq<char>)> {
        seq![("C"@, "Copy"@)]
    }

    open spec fn key_post(
        &self,
        key: KeyEvent,
        out: (Seq<Action>, bool),
        next: Self,
        next_out: (Seq<Action>, bool),
        r: Result<Option<Action>, TuiError>,
    ) -> bool {
        &&& r == Ok::<Option<Action>, TuiError>(None)
        &&& next.key == self.key
        &&& next.value == self.value
        &&& match spec_scroll_command(key.code) {
            Some(command) => next.scroll == self.scroll.spec_apply(command) && next_out == out,
            None => {
                &&& next.scroll == self.scroll
                &&& if key.code == KeyCode::Char('c') {
                    sends(out, next_out, seq![self.spec_copy()])
                } else {
                    next_out == out
                }
            },
        }
    }

    open spec fn update_post(
        &self,
        action: Action,
        out: (Seq<Action>, bool),
        next: Self,
        next_out: (Seq<Action>, bool),
        r: Result<Option<Action>, TuiError>,
    ) -> bool {
        &&& r == Ok::<Option<Action>, TuiError>(None)
        &&& next_out == out
        &&& match action {
            Action::Schemas(key, value) => next.key == key && next.value == value && next.scroll
                == ScrollState::spec_top(),
            _ => next == *self,
        }
    }

    fn id(&self) -> (r: ComponentName) {
        ComponentName::Schemas
    }

    fn shortcuts(&self) -> (r: Vec<Shortcut>) {
        let r = vec![Shortcut::new("C", "Copy")];
        assert(shortcut_views(r@) =~= seq![("C"@, "Copy"@)]);
        r
    }

    fn handle_key_events(&mut self, key: KeyEvent, out: &mut Outbox) -> (r: Result<
        Option<Action>,
        TuiError,
    >) {
        proof {
            assert(old(out)@.0.subrange(0, old(out)@.0.len() as int) =~= old(out)@.0);
        }
        match scroll_command(key.code) {
            Some(command) => self.scroll.apply(command),
            None => {
                if key.code == KeyCode::Char('c') {
                    let exported = ExportedSchemasDetails {
                        key: duplicate_detail_option(&self.key),
                        value: duplicate_detail_option(&self.value),
                    };
                    let copy = Action::CopyToClipboard(ClipboardContent::Schemas(exported));
                    out.send(copy, Ghost(self.spec_copy()));
                }
            },
        }
        Ok(None)
    }

    fn update(&mut self, action: &Action, out: &mut Outbox) -> (r: Result<
        Option<Action>,
        TuiError,
    >) {
        proof {
            assert(old(out)@.0.subrange(0, old(out)@.0.len() as int) =~= old(out)@.0);
        }
        match action {
            Action::Schemas(key, value) => {
                self.key = duplicate_detail_option(key);
                self.value = duplicate_detail_option(value);
                self.scroll.reset();
            },
            _ => {},
        }
        Ok(None)
    }
}

/// What the panel shows of a schema: the registry's answer, or a note that it
/// could not be had.
pub open spec fn spec_schema_content(detail: SchemaDetail) -> Seq<char> {
    match detail.response {
        Some(text) => text@,
        None => "The Schema "@ + detail.id@
            + " is unavailable. Please make sure you configured Yozefu to use the schema registry."@,
    }
}

/// The panel's sections, key first: a label with the schema's URL, and a title
/// above the schema's content.
pub open spec fn spec_sections(key: Option<SchemaDetail>, value: Option<SchemaDetail>) -> Seq<
    (Seq<char>, Seq<char>),
> {
    let urls = match key {
        Some(k) => seq![("Key schema URL  : "@, k.url@)],
        None => Seq::empty(),
    } + match value {
        Some(v) => seq![("Value schema URL: "@, v.url@)],
        None => Seq::empty(),
    };
    urls + match key {
        Some(k) => seq![("Key schema: "@, spec_schema_content(k))],
        None => Seq::empty(),
    } + match value {
        Some(v) => seq![("Value schema: "@, spec_schema_content(v))],
        None => Seq::empty(),
    }
}

pub fn schema_content(detail: &SchemaDetail) -> (r: String)
    ensures
        r@ == spec_schema_content(*detail),
{
    match &detail.response {
        Some(text) => text.clone(),
        None => {
            let mut note = String::from_str("The Schema ");
            note.append(detail.id.as_str());
            note.append(
                " is unavailable. Please make sure you configured Yozefu to use the schema registry.",
            );
            note
        },
    }
}

impl SchemasComponent {
    /// The text of the panel as (title, text) pairs; the host highlights the
    /// schemas' content.
    pub fn sections(&self) -> (r: Vec<(String, String)>)
        ensures
            r@.map_values(|p: (String, String)| (p.0@, p.1@)) == spec_sections(self.key, self.value),
    {
        let mut r: Vec<(String, String)> = Vec::new();
        match &self.key {
            Some(k) => r.push((String::from_str("Key schema URL  : "), k.url.clone())),
            None => {},
        }
        match &self.value {
            Some(v) => r.push((String::from_str("Value schema URL: "), v.url.clone())),
            None => {},
        }
        match &self.key {
            Some(k) => r.push((String::from_str("Key schema: "), schema_content(k))),
            None => {},
        }
        match &self.value {
            Some(v) => r.push((String::from_str("Value schema: "), schema_content(v))),
            None => {},
        }
        assert(r@.map_values(|p: (String, String)| (p.0@, p.1@)) =~= spec_sections(self.key, self.value));
        r
    }
}

} // verus!
