//! The panel showing every detail of the selected record.
use vstd::prelude::*;
use crate::action::{
    Action,
    ClipboardContent,
    ComponentName,
    ExportedKafkaRecord,
    KafkaRecord,
    Schema,
};
use crate::component::{Component, Shortcut, shortcut_views};
use crate::key::{KeyCode, KeyEvent, scroll_command, spec_scroll_command};
use crate::outbox::{Outbox, TuiError, lemma_sends_chain, sends};
use crate::scroll::{ScrollState, ScrollbarView};

verus! {

pub open spec fn schema_id(schema: Option<Schema>) -> Option<String> {
    match schema {
        Some(s) => Some(s.id),
        None => None,
    }
}

fn copy_schema_id(schema: &Option<Schema>) -> (r: Option<String>)
    ensures
        r == schema_id(*schema),
{
    match schema {
        Some(s) => Some(s.id.clone()),
        None => None,
    }
}

pub struct RecordDetailsComponent {
    pub record: Option<KafkaRecord>,
    pub search_query: String,
    pub scroll: ScrollState,
}

impl RecordDetailsComponent {
    pub fn new() -> (r: RecordDetailsComponent)
        ensures
            r.record.is_none(),
            r.search_query@ == Seq::<char>::empty(),
            r.scroll == ScrollState::spec_top(),
    {
        RecordDetailsComponent { record: None, search_query: String::new(), scroll: ScrollState::new() }
    }

    /// The actions a key publishes, for the record shown.
    pub open spec fn spec_published(self, code: KeyCode) -> Seq<Action> {
        match self.record {
            None => Seq::empty(),
            Some(record) => match code {
                KeyCode::Char('o') => seq![Action::Open(record)],
                KeyCode::Char('e') => seq![Action::Export(record)],
                KeyCode::Char('c') => seq![
                    Action::CopyToClipboard(
                        ClipboardContent::Record(
                            ExportedKafkaRecord { record, search_query: self.search_query },
                        ),
                    ),
                ],
                KeyCode::Char('s') => if record.spec_has_schemas() {
                    seq![
                        Action::RequestSchemasOf(
                            schema_id(record.key_schema),
                            schema_id(record.value_schema),
                        ),
                        Action::NewView(ComponentName::Schemas),
                    ]
                } else {
                    Seq::empty()
                },
                _ => Seq::empty(),
            },
        }
    }

    /// Asks the host for the schemas of the record shown, then to show them.
    pub fn show_schema(&self, out: &mut Outbox)
        ensures
            sends(old(out)@, final(out)@, self.spec_published(KeyCode::Char('s'))),
    {
        match &self.record {
            Some(record) => {
                if record.has_schemas() {
                    let request = Action::RequestSchemasOf(
                        copy_schema_id(&record.key_schema),
                        copy_schema_id(&record.value_schema),
                    );
                    let ghost first = request;
                    out.send(request, Ghost(first));
                    let ghost mid = out@;
                    let view = Action::NewView(ComponentName::Schemas);
                    let ghost second = view;
                    out.send(view, Ghost(second));
                    proof {
                        lemma_sends_chain(old(out)@, mid, out@, seq![first], seq![second]);
                        assert(seq![first] + seq![second] =~= seq![first, second]);
                    }
                } else {
                    proof {
                        assert(old(out)@.0.subrange(0, old(out)@.0.len() as int) =~= old(out)@.0);
                    }
                }
            },
            None => {
                proof {
                    assert(old(out)@.0.subrange(0, old(out)@.0.len() as int) =~= old(out)@.0);
                }
            },
        }
    }

    /// Prepares a draw of `content_length` lines in `viewport_height` lines.
    pub fn frame(&mut self, content_length: usize, viewport_height: usize) -> (r: ScrollbarView)
        ensures
            r == old(self).scroll.spec_scrollbar(content_length as int, viewport_height as int),
            final(self).scroll == old(self).scroll.spec_rendered(
                content_length as int,
                viewport_height as int,
            ),
            final(self).record == old(self).record,
            final(self).search_query == old(self).search_query,
    {
        self.scroll.render(content_length, viewport_height)
    }
}

impl Component for RecordDetailsComponent {
    open spec fn spec_id(&self) -> ComponentName {
        ComponentName::RecordDetails
    }

    open spec fn spec_shortcuts(&self) -> Seq<(Seq<char>, Seq<char>)> {
        let base = seq![("J/K"@, "Scroll"@), ("↑↓"@, "Prev/next record"@)];
        match self.record {
            Some(record) => if record.spec_has_schemas() {
                base.push(("S"@, "Schemas"@))
            } else {
                base
            },
            None => base,
        }
    }

    open spec fn key_post(
        &self,
        key: KeyEvent,
        out: (Seq<Action>, bool),
        next: Self,
        next_out: (Seq<Action>, bool),
        r: Result<Option<Action>, TuiError>,
    ) -> bool {
        &&& r == Ok::<Option<Action>, TuiError>(None)
        &&& next.record == self.record
        &&& next.search_query == self.search_query
        &&& match spec_scroll_command(key.code) {
            Some(command) => next.scroll == self.scroll.spec_apply(command) && next_out == out,
            None => next.scroll == self.scroll && sends(
                out,
                next_out,
                self.spec_published(key.code),
            ),
        }
    }

    open spec fn update_post(
        &self,
        action: Action,
        out: (Seq<Action>, bool),
        next: Self,
        next_out: (Seq<Action>, bool),
        r: Result<Option<Action>, TuiError>,
    ) -> bool {
        &&& r == Ok::<Option<Action>, TuiError>(None)
        &&& next_out == out
        &&& match action {
            Action::ShowRecord(record) => {
                &&& next.record matches Some(shown) && shown.same(record)
                &&& next.scroll == ScrollState::spec_top()
                &&& next.search_query == self.search_query
            },
            Action::Search(query) => {
                &&& next.search_query == query
                &&& next.record == self.record
                &&& next.scroll == self.scroll
            },
            _ => next == *self,
        }
    }

    fn id(&self) -> (r: ComponentName) {
        ComponentName::RecordDetails
    }

    fn shortcuts(&self) -> (r: Vec<Shortcut>) {
        let mut r = vec![Shortcut::new("J/K", "Scroll"), Shortcut::new("↑↓", "Prev/next record")];
        let ghost base = shortcut_views(r@);
        assert(base =~= seq![("J/K"@, "Scroll"@), ("↑↓"@, "Prev/next record"@)]);
        let has_schemas = match &self.record {
            Some(record) => record.has_schemas(),
            None => false,
        };
        if has_schemas {
            r.push(Shortcut::new("S", "Schemas"));
            assert(shortcut_views(r@) =~= base.push(("S"@, "Schemas"@)));
        }
        r
    }

    fn handle_key_events(&mut self, key: KeyEvent, out: &mut Outbox) -> (r: Result<
        Option<Action>,
        TuiError,
    >) {
        proof {
            assert(old(out)@.0.subrange(0, old(out)@.0.len() as int) =~= old(out)@.0);
        }
        match scroll_command(key.code) {
            Some(command) => {
                self.scroll.apply(command);
                return Ok(None);
            },
            None => {},
        }
        if key.code == KeyCode::Char('s') {
            self.show_schema(out);
            return Ok(None);
        }
        let ghost expected = self.spec_published(key.code);
        match &self.record {
            Some(record) => {
                if key.code == KeyCode::Char('o') {
                    out.send(Action::Open(record.duplicate()), Ghost(expected[0]));
                } else if key.code == KeyCode::Char('e') {
                    out.send(Action::Export(record.duplicate()), Ghost(expected[0]));
                } else if key.code == KeyCode::Char('c') {
                    let exported = ExportedKafkaRecord {
                        record: record.duplicate(),
                        search_query: self.search_query.clone(),
                    };
                    out.send(
                        Action::CopyToClipboard(ClipboardContent::Record(exported)),
                        Ghost(expected[0]),
                    );
                } else {
                    assert(expected =~= Seq::<Action>::empty());
                }
            },
            None => {},
        }
        proof {
            if expected.len() == 1 {
                assert(expected =~= seq![expected[0]]);
            }
        }
        Ok(None)
    }

    fn update(&mut self, action: &Action, out: &mut Outbox) -> (r: Result<
        Option<Action>,
        TuiError,
    >) {
        proof {
            assert(old(out)@.0.subrange(0, old(out)@.0.len() as int) =~= old(out)@.0);
        }
        match action {
            Action::ShowRecord(record) => {
                self.record = Some(record.duplicate());
                self.scroll.reset();
            },
            Action::Search(query) => {
                self.search_query = query.clone();
            },
            _ => {},
        }
        Ok(None)
    }
}

} // verus!
