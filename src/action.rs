//! The messages that panels and the host exchange, and the data they carry.
use vstd::prelude::*;

verus! {

/// The identity of a panel.
#[derive(Clone, Copy, Debug, PartialEq, Eq, Structural)]
pub enum ComponentName {
    Records,
    Topics,
    Search,
    RecordDetails,
    Schemas,
    TopicDetails,
    Help,
    Footer,
}

/// How urgent a notification is.
#[derive(Clone, Copy, Debug, PartialEq, Eq, Structural)]
pub enum Level {
    Info,
    Notice,
    Warning,
    Error,
}

/// A message shown to the user.
#[derive(Clone, Debug)]
pub struct Notification {
    pub level: Level,
    pub message: String,
}

/// A record header.
#[derive(Clone, Debug)]
pub struct Header {
    pub key: String,
    pub value: String,
}

/// A schema that a record's key or value refers to.
#[derive(Clone, Debug)]
pub struct Schema {
    pub id: String,
    pub schema_type: Option<String>,
}

/// A record read from a topic, as the panels display it.
#[derive(Clone, Debug)]
pub struct KafkaRecord {
    pub topic: String,
    pub timestamp: Option<i64>,
    pub partition: i32,
    pub offset: i64,
    pub size: usize,
    pub headers: Vec<Header>,
    pub key_schema: Option<Schema>,
    pub value_schema: Option<Schema>,
    pub key: String,
    pub value: String,
}

/// What the schema registry answered for one schema.
#[derive(Clone, Debug)]
pub struct SchemaDetail {
    pub id: String,
    pub url: String,
    pub response: Option<String>,
}

/// The state of a consumer group.
#[derive(Clone, Copy, Debug, PartialEq, Eq, Structural)]
pub enum ConsumerGroupState {
    Unknown,
    Empty,
    Dead,
    Stable,
    PreparingRebalance,
    CompletingRebalance,
    Rebalancing,
    UnknownRebalance,
}

/// A consumer group of a topic, with the number of its members.
#[derive(Clone, Debug)]
pub struct ConsumerGroupDetail {
    pub name: String,
    pub state: ConsumerGroupState,
    pub members: usize,
}

/// What is known of a topic.
#[derive(Clone, Debug)]
pub struct TopicDetail {
    pub name: String,
    pub partitions: usize,
    pub replicas: usize,
    pub consumer_groups: Vec<ConsumerGroupDetail>,
    pub count: i64,
}

/// A record as it is copied or exported, with the query that found it.
#[derive(Clone, Debug)]
pub struct ExportedKafkaRecord {
    pub record: KafkaRecord,
    pub search_query: String,
}

/// The schemas of a record as they are copied.
#[derive(Clone, Debug)]
pub struct ExportedSchemasDetails {
    pub key: Option<SchemaDetail>,
    pub value: Option<SchemaDetail>,
}

/// What goes to the clipboard. The host turns it into text.
#[derive(Clone, Debug)]
pub enum ClipboardContent {
    Record(ExportedKafkaRecord),
    Schemas(ExportedSchemasDetails),
}

/// A message published by a panel or by the host, and delivered to every panel.
#[derive(Clone, Debug)]
pub enum Action {
    Tick,
    Render,
    Search(String),
    ShowRecord(KafkaRecord),
    Open(KafkaRecord),
    Export(KafkaRecord),
    CopyToClipboard(ClipboardContent),
    RequestSchemasOf(Option<String>, Option<String>),
    Schemas(Option<SchemaDetail>, Option<SchemaDetail>),
    NewView(ComponentName),
    Notification(Notification),
    RequestTopicDetails(Vec<String>),
    TopicDetails(Vec<TopicDetail>),
}

impl Header {
    pub fn duplicate(&self) -> (r: Header)
        ensures
            r == *self,
    {
        Header { key: self.key.clone(), value: self.value.clone() }
    }
}

pub fn duplicate_string_option(s: &Option<String>) -> (r: Option<String>)
    ensures
        r == *s,
{
    match s {
        Some(v) => Some(v.clone()),
        None => None,
    }
}

impl Schema {
    pub fn duplicate(&self) -> (r: Schema)
        ensures
            r == *self,
    {
        Schema { id: self.id.clone(), schema_type: duplicate_string_option(&self.schema_type) }
    }
}

pub fn duplicate_schema_option(s: &Option<Schema>) -> (r: Option<Schema>)
    ensures
        r == *s,
{
    match s {
        Some(v) => Some(v.duplicate()),
        None => None,
    }
}

impl SchemaDetail {
    pub fn duplicate(&self) -> (r: SchemaDetail)
        ensures
            r == *self,
    {
        SchemaDetail {
            id: self.id.clone(),
            url: self.url.clone(),
            response: duplicate_string_option(&self.response),
        }
    }
}

pub fn duplicate_detail_option(s: &Option<SchemaDetail>) -> (r: Option<SchemaDetail>)
    ensures
        r == *s,
{
    match s {
        Some(v) => Some(v.duplicate()),
        None => None,
    }
}

impl ConsumerGroupDetail {
    pub fn duplicate(&self) -> (r: ConsumerGroupDetail)
        ensures
            r == *self,
    {
        ConsumerGroupDetail { name: self.name.clone(), state: self.state, members: self.members }
    }
}

impl KafkaRecord {
    /// Equal in every field, the headers compared element by element.
    pub open spec fn same(self, other: KafkaRecord) -> bool {
        &&& self.topic == other.topic
        &&& self.timestamp == other.timestamp
        &&& self.partition == other.partition
        &&& self.offset == other.offset
        &&& self.size == other.size
        &&& self.headers@ == other.headers@
        &&& self.key_schema == other.key_schema
        &&& self.value_schema == other.value_schema
        &&& self.key == other.key
        &&& self.value == other.value
    }

    /// Whether the record's key or value refers to a schema.
    pub open spec fn spec_has_schemas(self) -> bool {
        self.key_schema.is_some() || self.value_schema.is_some()
    }

    pub fn has_schemas(&self) -> (r: bool)
        ensures
            r == self.spec_has_schemas(),
    {
        self.key_schema.is_some() || self.value_schema.is_some()
    }

    pub fn duplicate(&self) -> (r: KafkaRecord)
        ensures
            r.same(*self),
    {
        let mut headers: Vec<Header> = Vec::new();
        let mut i: usize = 0;
        while i < self.headers.len()
            invariant
                i <= self.headers@.len(),
                headers@ == self.headers@.subrange(0, i as int),
            decreases self.headers@.len() - i,
        {
            headers.push(self.headers[i].duplicate());
            i = i + 1;
            assert(headers@ =~= self.headers@.subrange(0, i as int));
        }
        assert(headers@ =~= self.headers@);
        KafkaRecord {
            topic: self.topic.clone(),
            timestamp: self.timestamp,
            partition: self.partition,
            offset: self.offset,
            size: self.size,
            headers,
            key_schema: duplicate_schema_option(&self.key_schema),
            value_schema: duplicate_schema_option(&self.value_schema),
            key: self.key.clone(),
            value: self.value.clone(),
        }
    }
}

impl TopicDetail {
    /// Equal in every field, the consumer groups compared element by element.
    pub open spec fn same(self, other: TopicDetail) -> bool {
        &&& self.name == other.name
        &&& self.partitions == other.partitions
        &&& self.replicas == other.replicas
        &&& self.consumer_groups@ == other.consumer_groups@
        &&& self.count == other.count
    }

    pub fn duplicate(&self) -> (r: TopicDetail)
        ensures
            r.same(*self),
    {
        let mut groups: Vec<ConsumerGroupDetail> = Vec::new();
        let mut i: usize = 0;
        while i < self.consumer_groups.len()
            invariant
                i <= self.consumer_groups@.len(),
                groups@ == self.consumer_groups@.subrange(0, i as int),
            decreases self.consumer_groups@.len() - i,
        {
            groups.push(self.consumer_groups[i].duplicate());
            i = i + 1;
            assert(groups@ =~= self.consumer_groups@.subrange(0, i as int));
        }
        assert(groups@ =~= self.consumer_groups@);
        TopicDetail {
            name: self.name.clone(),
            partitions: self.partitions,
            replicas: self.replicas,
            consumer_groups: groups,
            count: self.count,
        }
    }
}

/// Two lists of topics that agree element by element.
pub open spec fn same_details(a: Seq<TopicDetail>, b: Seq<TopicDetail>) -> bool {
    a.len() == b.len() && forall|i: int| 0 <= i < a.len() ==> #[trigger] a[i].same(b[i])
}

pub fn duplicate_details(details: &Vec<TopicDetail>) -> (r: Vec<TopicDetail>)
    ensures
        same_details(r@, details@),
{
    let mut out: Vec<TopicDetail> = Vec::new();
    let mut i: usize = 0;
    while i < details.len()
        invariant
            i <= details@.len(),
            out@.len() == i,
            forall|k: int| 0 <= k < i ==> #[trigger] out@[k].same(details@[k]),
        decreases details@.len() - i,
    {
        out.push(details[i].duplicate());
        i = i + 1;
    }
    out
}

impl ExportedSchemasDetails {
    pub open spec fn same(self, other: ExportedSchemasDetails) -> bool {
        self.key == other.key && self.value == other.value
    }
}

impl ClipboardContent {
    pub open spec fn same(self, other: ClipboardContent) -> bool {
        match (self, other) {
            (ClipboardContent::Record(a), ClipboardContent::Record(b)) => a.record.same(b.record)
                && a.search_query == b.search_query,
            (ClipboardContent::Schemas(a), ClipboardContent::Schemas(b)) => a.same(b),
            _ => false,
        }
    }
}

impl Action {
    /// Equal as messages: records, topics and lists compared element by element.
    pub open spec fn same(self, other: Action) -> bool {
        match (self, other) {
            (Action::Tick, Action::Tick) => true,
            (Action::Render, Action::Render) => true,
            (Action::Search(a), Action::Search(b)) => a == b,
            (Action::ShowRecord(a), Action::ShowRecord(b)) => a.same(b),
            (Action::Open(a), Action::Open(b)) => a.same(b),
            (Action::Export(a), Action::Export(b)) => a.same(b),
            (Action::CopyToClipboard(a), Action::CopyToClipboard(b)) => a.same(b),
            (Action::RequestSchemasOf(a, b), Action::RequestSchemasOf(c, d)) => a == c && b == d,
            (Action::Schemas(a, b), Action::Schemas(c, d)) => a == c && b == d,
            (Action::NewView(a), Action::NewView(b)) => a == b,
            (Action::Notification(a), Action::Notification(b)) => a.level == b.level
                && a.message@ == b.message@,
            (Action::RequestTopicDetails(a), Action::RequestTopicDetails(b)) => a@ == b@,
            (Action::TopicDetails(a), Action::TopicDetails(b)) => same_details(a@, b@),
            _ => false,
        }
    }
}

/// Two queues of messages that agree element by element.
pub open spec fn same_actions(a: Seq<Action>, b: Seq<Action>) -> bool {
    a.len() == b.len() && forall|i: int| 0 <= i < a.len() ==> #[trigger] a[i].same(b[i])
}

} // verus!
