//! The text that panels show: the record's labelled fields and a topic's summary.
use vstd::prelude::*;
use crate::action::{Header, KafkaRecord, Schema, TopicDetail};
use crate::order::{header_views, sorted_header_views, sorted_headers};

verus! {

/// The character of a decimal digit.
pub open spec fn digit(d: nat) -> char {
    seq!['0', '1', '2', '3', '4', '5', '6', '7', '8', '9'][(d % 10) as int]
}

/// The decimal digits of `n`, most significant first.
pub open spec fn digits(n: nat) -> Seq<char>
    decreases n,
{
    if n < 10 {
        seq![digit(n)]
    } else {
        digits(n / 10).push(digit(n % 10))
    }
}

/// How an integer is written: its digits, after a `-` when it is negative.
pub open spec fn decimal_text(n: int) -> Seq<char> {
    if n < 0 {
        seq!['-'] + digits((-n) as nat)
    } else {
        digits(n as nat)
    }
}

/// The decimal digits of `n` with an underscore between groups of three, from
/// the right.
pub open spec fn grouped_digits(n: nat) -> Seq<char>
    decreases n,
{
    if n < 1000 {
        digits(n)
    } else {
        grouped_digits(n / 1000) + seq!['_', digit(n % 1000 / 100), digit(n % 100 / 10), digit(n % 10)]
    }
}

/// An integer written with underscores between groups of three digits.
pub open spec fn underscored_text(n: int) -> Seq<char> {
    if n < 0 {
        seq!['-'] + grouped_digits((-n) as nat)
    } else {
        grouped_digits(n as nat)
    }
}

/// What bytesize writes for a size in bytes.
pub uninterp spec fn byte_size_text(bytes: nat) -> Seq<char>;

/// What timeago writes, in English, for a duration in milliseconds.
pub uninterp spec fn ago_text(millis: nat) -> Seq<char>;

/// Relies on std's `Display` for `i64`: the decimal digits, after a `-` when negative.
#[verifier::external_body]
fn decimal(n: i64) -> (r: String)
    ensures
        r@ == decimal_text(n as int),
{
    n.to_string()
}

/// Relies on std's `Display` for `u64`: the decimal digits.
#[verifier::external_body]
fn unsigned_decimal(n: u64) -> (r: String)
    ensures
        r@ == decimal_text(n as int),
{
    n.to_string()
}

/// Relies on thousands' `Separable::separate_with_underscores` for `i64`: the
/// number as std writes it, with an underscore between groups of three digits.
#[verifier::external_body]
fn with_underscores(n: i64) -> (r: String)
    ensures
        r@ == underscored_text(n as int),
{
    thousands::Separable::separate_with_underscores(&n)
}

/// Relies on bytesize's `Display for ByteSize`: a function of the size alone, which
/// below 1000 bytes is the number followed by " B".
#[verifier::external_body]
fn byte_size(bytes: u64) -> (r: String)
    ensures
        r@ == byte_size_text(bytes as nat),
        bytes < 1000 ==> r@ == decimal_text(bytes as int) + " B"@,
{
    bytesize::ByteSize(bytes).to_string()
}

/// Relies on timeago's `Formatter::convert` with the default English formatter: a
/// function of the duration alone.
#[verifier::external_body]
fn time_ago(millis: u64) -> (r: String)
    ensures
        r@ == ago_text(millis as nat),
{
    timeago::Formatter::new().convert(std::time::Duration::from_millis(millis))
}

/// A line of the record panel: a label, empty on continuation lines, and a value.
#[derive(Clone, Debug)]
pub struct DetailLine {
    pub label: String,
    pub value: String,
}

impl View for DetailLine {
    type V = (Seq<char>, Seq<char>);

    open spec fn view(&self) -> (Seq<char>, Seq<char>) {
        (self.label@, self.value@)
    }
}

pub open spec fn line_views(lines: Seq<DetailLine>) -> Seq<(Seq<char>, Seq<char>)> {
    lines.map_values(|l: DetailLine| l@)
}

/// The longest header key, in characters.
pub open spec fn key_width(headers: Seq<(Seq<char>, Seq<char>)>) -> nat
    decreases headers.len(),
{
    if headers.len() == 0 {
        0
    } else {
        let w = key_width(headers.drop_last());
        let k = headers.last().0.len();
        if k > w {
            k
        } else {
            w
        }
    }
}

/// `s` followed by spaces up to `width` characters.
pub open spec fn pad_right(s: Seq<char>, width: nat) -> Seq<char> {
    if s.len() >= width {
        s
    } else {
        s + Seq::new((width - s.len()) as nat, |i: int| ' ')
    }
}

/// One line per (key, value) header, in the order given: the key padded to the
/// longest key, then the value. The first line carries the label.
pub open spec fn header_lines(headers: Seq<(Seq<char>, Seq<char>)>) -> Seq<(Seq<char>, Seq<char>)> {
    Seq::new(
        headers.len(),
        |i: int|
            (
                if i == 0 {
                    "Headers"@
                } else {
                    Seq::empty()
                },
                pad_right(headers[i].0, key_width(headers)) + " : "@ + headers[i].1,
            ),
    )
}

/// A schema as shown: its id, then its type when known.
pub open spec fn schema_text(s: Schema) -> Seq<char> {
    match s.schema_type {
        Some(t) => s.id@ + " - "@ + t@,
        None => s.id@,
    }
}

pub open spec fn schema_line(label: Seq<char>, s: Option<Schema>) -> Seq<(Seq<char>, Seq<char>)> {
    match s {
        Some(schema) => seq![(label, schema_text(schema))],
        None => Seq::empty(),
    }
}

/// How long ago the record was published at `now_millis`, never negative.
pub open spec fn age(published: int, now_millis: int) -> nat {
    if now_millis <= published {
        0
    } else if now_millis - published <= u64::MAX {
        (now_millis - published) as nat
    } else {
        u64::MAX as nat
    }
}

/// The lines of the record panel at time `now_millis`, a missing timestamp counting
/// as 0. `date_time` is the publication time as the host writes it.
pub open spec fn spec_record_fields(
    record: KafkaRecord,
    now_millis: int,
    date_time: Seq<char>,
) -> Seq<(Seq<char>, Seq<char>)> {
    let millis = match record.timestamp {
        Some(t) => t as int,
        None => 0,
    };
    seq![
        ("Topic"@, record.topic@),
        ("Timestamp"@, decimal_text(millis) + " ms"@),
        ("DateTime"@, date_time),
        ("Published"@, ago_text(age(millis, now_millis))),
        ("Offset"@, decimal_text(record.offset as int)),
        ("Partition"@, decimal_text(record.partition as int)),
        ("Size"@, byte_size_text(record.size as nat)),
    ] + header_lines(sorted_header_views(record.headers@)) + schema_line("Key schema"@, record.key_schema) + schema_line(
        "Value schema"@,
        record.value_schema,
    ) + seq![("Key"@, record.key@), ("Value"@, Seq::empty())]
}

fn line(label: &str, value: String) -> (r: DetailLine)
    ensures
        r@ == (label@, value@),
{
    DetailLine { label: String::from_str(label), value }
}

fn schema_value(s: &Schema) -> (r: String)
    ensures
        r@ == schema_text(*s),
{
    let mut text = s.id.clone();
    match &s.schema_type {
        Some(t) => {
            text.append(" - ");
            text.append(t.as_str());
        },
        None => {},
    }
    text
}

fn longest_key(headers: &Vec<Header>) -> (r: usize)
    ensures
        r as nat == key_width(header_views(headers@)),
{
    let mut width: usize = 0;
    let mut i: usize = 0;
    while i < headers.len()
        invariant
            i <= headers@.len(),
            width as nat == key_width(header_views(headers@.take(i as int))),
        decreases headers@.len() - i,
    {
        assert(header_views(headers@.take(i as int + 1)).drop_last() =~= header_views(
            headers@.take(i as int),
        ));
        let k = headers[i].key.as_str().unicode_len();
        if k > width {
            width = k;
        }
        i = i + 1;
    }
    assert(headers@.take(i as int) =~= headers@);
    width
}

fn padded(s: &String, width: usize) -> (r: String)
    ensures
        r@ == pad_right(s@, width as nat),
{
    let mut text = s.clone();
    let n = s.as_str().unicode_len();
    let mut k: usize = n;
    while k < width
        invariant
            n == s@.len(),
            n <= k <= width || (k == n && n >= width),
            k >= width ==> k == width || n >= width,
            text@ == s@ + Seq::new((k - n) as nat, |i: int| ' '),
        decreases width - k,
    {
        text.append(" ");
        k = k + 1;
        proof {
            reveal_strlit(" ");
            assert(" "@ =~= seq![' ']);
        }
        assert(text@ =~= s@ + Seq::new((k - n) as nat, |i: int| ' '));
    }
    if n >= width {
        assert(text@ =~= s@);
    }
    text
}

/// Lays out the record panel's lines: the record's fields, its headers in
/// ascending order of key, its schemas, its key, then the label of the value that the host appends highlighted.
pub fn record_fields(record: &KafkaRecord, now_millis: i64, date_time: &str) -> (r: Vec<DetailLine>)
    ensures
        line_views(r@) == spec_record_fields(*record, now_millis as int, date_time@),
{
    let millis: i64 = match record.timestamp {
        Some(t) => t,
        None => 0,
    };
    let elapsed: i128 = now_millis as i128 - millis as i128;
    let age: u64 = if elapsed <= 0 {
        0
    } else if elapsed <= u64::MAX as i128 {
        elapsed as u64
    } else {
        u64::MAX
    };
    let mut stamp = decimal(millis);
    stamp.append(" ms");
    let mut lines: Vec<DetailLine> = vec![
        line("Topic", record.topic.clone()),
        line("Timestamp", stamp),
        line("DateTime", String::from_str(date_time)),
        line("Published", time_ago(age)),
        line("Offset", decimal(record.offset)),
        line("Partition", decimal(record.partition as i64)),
        line("Size", byte_size(record.size as u64)),
    ];
    let ghost base = line_views(lines@);
    let headers = sorted_headers(&record.headers);
    let ghost views = sorted_header_views(record.headers@);
    let width = longest_key(&headers);
    let mut i: usize = 0;
    while i < headers.len()
        invariant
            i <= headers@.len(),
            views == header_views(headers@),
            width as nat == key_width(views),
            line_views(lines@) == base + header_lines(views).take(i as int),
        decreases headers@.len() - i,
    {
        let h = &headers[i];
        let mut value = padded(&h.key, width);
        value.append(" : ");
        value.append(h.value.as_str());
        let label = if i == 0 {
            String::from_str("Headers")
        } else {
            String::new()
        };
        let ghost before = line_views(lines@);
        lines.push(DetailLine { label, value });
        i = i + 1;
        assert(line_views(lines@) =~= before.push(header_lines(views)[i - 1]));
        assert(header_lines(views).take(i as int) =~= header_lines(views).take(
            i - 1,
        ).push(header_lines(views)[i - 1]));
    }
    assert(header_lines(views).take(i as int) =~= header_lines(views));
    let ghost with_headers = line_views(lines@);
    match &record.key_schema {
        Some(s) => lines.push(line("Key schema", schema_value(s))),
        None => {},
    }
    assert(line_views(lines@) =~= with_headers + schema_line("Key schema"@, record.key_schema));
    let ghost with_key = line_views(lines@);
    match &record.value_schema {
        Some(s) => lines.push(line("Value schema", schema_value(s))),
        None => {},
    }
    assert(line_views(lines@) =~= with_key + schema_line("Value schema"@, record.value_schema));
    let ghost with_schemas = line_views(lines@);
    lines.push(line("Key", record.key.clone()));
    lines.push(line("Value", String::new()));
    assert(line_views(lines@) =~= with_schemas + seq![("Key"@, record.key@), ("Value"@, Seq::<char>::empty())]);
    assert(base =~= seq![
        ("Topic"@, record.topic@),
        ("Timestamp"@, decimal_text(millis as int) + " ms"@),
        ("DateTime"@, date_time@),
        ("Published"@, ago_text(age as nat)),
        ("Offset"@, decimal_text(record.offset as int)),
        ("Partition"@, decimal_text(record.partition as int)),
        ("Size"@, byte_size_text(record.size as nat)),
    ]);
    lines
}

/// The summary above a topic's consumer groups: its name, its partitions and
/// replicas, its record count and number of groups.
pub open spec fn spec_topic_summary(detail: TopicDetail) -> Seq<Seq<char>> {
    seq![
        detail.name@,
        decimal_text(detail.partitions as int) + " partitions, "@ + decimal_text(
            detail.replicas as int,
        ) + " replicas"@,
        underscored_text(detail.count as int) + " records, "@ + decimal_text(
            detail.consumer_groups@.len() as int,
        ) + " consumer groups"@,
    ]
}

pub fn topic_summary(detail: &TopicDetail) -> (r: Vec<String>)
    ensures
        r@.map_values(|s: String| s@) == spec_topic_summary(*detail),
{
    let mut sizes = unsigned_decimal(detail.partitions as u64);
    sizes.append(" partitions, ");
    sizes.append(unsigned_decimal(detail.replicas as u64).as_str());
    sizes.append(" replicas");
    let mut counts = with_underscores(detail.count);
    counts.append(" records, ");
    counts.append(unsigned_decimal(detail.consumer_groups.len() as u64).as_str());
    counts.append(" consumer groups");
    let r = vec![detail.name.clone(), sizes, counts];
    assert(r@.map_values(|s: String| s@) =~= spec_topic_summary(*detail));
    r
}

} // verus!
