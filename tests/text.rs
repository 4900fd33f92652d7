use yozefu_tui::action::{ConsumerGroupDetail, ConsumerGroupState, Header, KafkaRecord, Schema, TopicDetail};
use yozefu_tui::text::{record_fields, topic_summary};

fn record() -> KafkaRecord {
    KafkaRecord {
        topic: "travel-stories".to_string(),
        timestamp: Some(1_717_236_000_000),
        partition: 2,
        offset: -42,
        size: 1024,
        headers: vec![
            Header { key: "trace".to_string(), value: "abc".to_string() },
            Header { key: "a".to_string(), value: "b".to_string() },
        ],
        key_schema: Some(Schema { id: "3".to_string(), schema_type: None }),
        value_schema: Some(Schema { id: "7".to_string(), schema_type: Some("AVRO".to_string()) }),
        key: "key-1".to_string(),
        value: "{}".to_string(),
    }
}

fn pairs(record: &KafkaRecord, now: i64) -> Vec<(String, String)> {
    record_fields(record, now, "2024-06-01T10:00:00+00:00")
        .into_iter()
        .map(|l| (l.label, l.value))
        .collect()
}

#[test]
fn record_fields_lay_out_every_field() {
    let lines = pairs(&record(), 1_717_236_000_000 + 2 * 3_600_000);
    let expected: Vec<(&str, &str)> = vec![
        ("Topic", "travel-stories"),
        ("Timestamp", "1717236000000 ms"),
        ("DateTime", "2024-06-01T10:00:00+00:00"),
        ("Published", "2 hours ago"),
        ("Offset", "-42"),
        ("Partition", "2"),
        ("Size", "1.0 KB"),
        ("Headers", "a     : b"),
        ("", "trace : abc"),
        ("Key schema", "3"),
        ("Value schema", "7 - AVRO"),
        ("Key", "key-1"),
        ("Value", ""),
    ];
    let expected: Vec<(String, String)> =
        expected.into_iter().map(|(a, b)| (a.to_string(), b.to_string())).collect();
    assert_eq!(lines, expected);
}

#[test]
fn record_fields_defaults_for_missing_data() {
    let mut r = record();
    r.timestamp = None;
    r.headers.clear();
    r.key_schema = None;
    r.value_schema = None;
    r.size = 999;
    let lines = pairs(&r, -5);
    assert_eq!(lines.len(), 9);
    assert_eq!(lines[1].1, "0 ms");
    assert_eq!(lines[3].1, "now");
    assert_eq!(lines[6].1, "999 B");
    assert_eq!(lines[7].0, "Key");
}

#[test]
fn topic_summary_groups_thousands() {
    let detail = TopicDetail {
        name: "travel-stories".to_string(),
        partitions: 4,
        replicas: 6,
        consumer_groups: vec![
            ConsumerGroupDetail { name: "g".to_string(), state: ConsumerGroupState::Empty, members: 0 },
            ConsumerGroupDetail { name: "h".to_string(), state: ConsumerGroupState::Dead, members: 0 },
        ],
        count: 1_234_567,
    };
    assert_eq!(
        topic_summary(&detail),
        vec![
            "travel-stories".to_string(),
            "4 partitions, 6 replicas".to_string(),
            "1_234_567 records, 2 consumer groups".to_string(),
        ]
    );
    let mut negative = detail.clone();
    negative.count = -1234;
    negative.consumer_groups.clear();
    assert_eq!(topic_summary(&negative)[2], "-1_234 records, 0 consumer groups");
}
