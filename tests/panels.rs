use yozefu_tui::action::{
    Action, ClipboardContent, ComponentName, ConsumerGroupDetail, ConsumerGroupState, Header,
    KafkaRecord, Level, Schema, SchemaDetail, TopicDetail,
};
use yozefu_tui::component::{BorderKind, Component, Decoration, RenderContext, WithHeight};
use yozefu_tui::help::HelpComponent;
use yozefu_tui::key::{KeyCode, KeyEvent};
use yozefu_tui::outbox::Outbox;
use yozefu_tui::record_details::RecordDetailsComponent;
use yozefu_tui::schemas::SchemasComponent;
use yozefu_tui::scrollable::VerticalScrollableBlock;
use yozefu_tui::topic_details::TopicDetailsComponent;

fn key(c: char) -> KeyEvent {
    KeyEvent::new(KeyCode::Char(c))
}

fn record(topic: &str, with_schema: bool) -> KafkaRecord {
    KafkaRecord {
        topic: topic.to_string(),
        timestamp: Some(1_717_236_000_000),
        partition: 2,
        offset: 42,
        size: 1024,
        headers: vec![Header { key: "trace".to_string(), value: "abc".to_string() }],
        key_schema: None,
        value_schema: if with_schema {
            Some(Schema { id: "7".to_string(), schema_type: Some("AVRO".to_string()) })
        } else {
            None
        },
        key: "key-1".to_string(),
        value: "{\"hello\":\"world\"}".to_string(),
    }
}

fn group(name: &str) -> ConsumerGroupDetail {
    ConsumerGroupDetail { name: name.to_string(), state: ConsumerGroupState::Stable, members: 1 }
}

fn topic(name: &str, groups: usize) -> TopicDetail {
    TopicDetail {
        name: name.to_string(),
        partitions: 4,
        replicas: 6,
        consumer_groups: (0..groups).map(|i| group(&format!("group-{i}"))).collect(),
        count: 0,
    }
}

#[test]
fn help_component_test_draw() {
    let mut component = HelpComponent::new();
    let value = "x".repeat(400);
    assert_eq!(HelpComponent::truncate_str(300, &value).chars().count(), 216);
    let (bar, reminder) = component.frame(80, 60);
    assert!(!reminder);
    assert_eq!(bar.content_length, 20);
    assert_eq!(bar.position, 0);
    assert_eq!(component.rendered, 1);
    assert_eq!(component.id(), ComponentName::Help);
    assert!(component.shortcuts().is_empty());
}

#[test]
fn truncate_str_keeps_what_fits() {
    assert_eq!(HelpComponent::truncate_str(90, "abcdefghij"), "abcdef");
    assert_eq!(HelpComponent::truncate_str(60, &"y".repeat(40)), "y".repeat(30));
    assert_eq!(HelpComponent::truncate_str(60, "short"), "short");
    assert_eq!(HelpComponent::truncate_str(86, "éèàù"), "éè");
    assert_eq!(HelpComponent::truncate_str(84, "abc"), "");
}

#[test]
fn help_reminder_after_ten_minutes() {
    let mut component = HelpComponent::new();
    component.rendered = 18_000;
    assert!(!component.frame(10, 5).1);
    assert!(component.frame(10, 5).1);
    let mut out = Outbox::new();
    component.handle_key_events(key('x'), &mut out).unwrap();
    assert_eq!(component.rendered, 0);
    assert!(!component.frame(10, 5).1);
}

#[test]
fn help_scroll_keys() {
    let mut component = HelpComponent::new();
    let mut out = Outbox::new();
    component.handle_key_events(KeyEvent::new(KeyCode::Down), &mut out).unwrap();
    component.handle_key_events(key('j'), &mut out).unwrap();
    assert_eq!(component.scroll.value(), 2);
    component.handle_key_events(KeyEvent::new(KeyCode::Up), &mut out).unwrap();
    assert_eq!(component.scroll.value(), 1);
    component.handle_key_events(key(']'), &mut out).unwrap();
    assert_eq!(component.frame(70, 20).0.position, 50);
    component.handle_key_events(key('['), &mut out).unwrap();
    assert_eq!(component.frame(70, 20).0.position, 0);
    assert_eq!(out.len(), 0);
}

#[test]
fn record_details_show_record_resets_scroll() {
    let mut component = RecordDetailsComponent::new();
    let mut out = Outbox::new();
    component.handle_key_events(key('j'), &mut out).unwrap();
    component.handle_key_events(key('j'), &mut out).unwrap();
    assert_eq!(component.scroll.value(), 2);
    let r = component.update(&Action::ShowRecord(record("travel-stories", false)), &mut out);
    assert!(matches!(r, Ok(None)));
    assert_eq!(component.record.as_ref().unwrap().topic, "travel-stories");
    assert_eq!(component.record.as_ref().unwrap().headers[0].key, "trace");
    assert_eq!(component.scroll.value(), 0);
    assert_eq!(out.len(), 0);
}

#[test]
fn record_details_publishes_open_export_and_copy() {
    let mut component = RecordDetailsComponent::new();
    let mut out = Outbox::new();
    component.handle_key_events(key('o'), &mut out).unwrap();
    assert_eq!(out.len(), 0);
    component.update(&Action::Search("offset > 3".to_string()), &mut out).unwrap();
    component.update(&Action::ShowRecord(record("orders", false)), &mut out).unwrap();
    component.handle_key_events(key('o'), &mut out).unwrap();
    component.handle_key_events(key('e'), &mut out).unwrap();
    component.handle_key_events(key('c'), &mut out).unwrap();
    let sent = out.take_pending();
    assert_eq!(sent.len(), 3);
    assert!(matches!(&sent[0], Action::Open(r) if r.topic == "orders" && r.offset == 42));
    assert!(matches!(&sent[1], Action::Export(r) if r.topic == "orders"));
    match &sent[2] {
        Action::CopyToClipboard(ClipboardContent::Record(e)) => {
            assert_eq!(e.search_query, "offset > 3");
            assert_eq!(e.record.key, "key-1");
        }
        other => panic!("unexpected {other:?}"),
    }
}

#[test]
fn record_details_show_schema() {
    let mut component = RecordDetailsComponent::new();
    let mut out = Outbox::new();
    component.update(&Action::ShowRecord(record("orders", false)), &mut out).unwrap();
    component.handle_key_events(key('s'), &mut out).unwrap();
    assert_eq!(out.len(), 0);
    assert_eq!(component.shortcuts().len(), 2);
    component.update(&Action::ShowRecord(record("orders", true)), &mut out).unwrap();
    let shortcuts = component.shortcuts();
    assert_eq!(shortcuts.len(), 3);
    assert_eq!(shortcuts[2].key, "S");
    assert_eq!(shortcuts[0].description, "Scroll");
    component.handle_key_events(key('s'), &mut out).unwrap();
    let sent = out.take_pending();
    assert_eq!(sent.len(), 2);
    assert!(matches!(&sent[0], Action::RequestSchemasOf(None, Some(v)) if v == "7"));
    assert!(matches!(&sent[1], Action::NewView(ComponentName::Schemas)));
}

#[test]
fn schemas_update_and_copy() {
    let mut component = SchemasComponent::new();
    let mut out = Outbox::new();
    component.handle_key_events(key(']'), &mut out).unwrap();
    let detail = SchemaDetail {
        id: "7".to_string(),
        url: "http://registry/schemas/ids/7".to_string(),
        response: None,
    };
    component.update(&Action::Schemas(None, Some(detail)), &mut out).unwrap();
    assert_eq!(component.scroll.value(), 0);
    assert_eq!(component.value.as_ref().unwrap().id, "7");
    component.handle_key_events(key('c'), &mut out).unwrap();
    let sent = out.take_pending();
    assert_eq!(sent.len(), 1);
    match &sent[0] {
        Action::CopyToClipboard(ClipboardContent::Schemas(e)) => {
            assert!(e.key.is_none());
            assert_eq!(e.value.as_ref().unwrap().url, "http://registry/schemas/ids/7");
        }
        other => panic!("unexpected {other:?}"),
    }
    assert_eq!(component.shortcuts()[0].key, "C");
}

#[test]
fn topic_details_component_test_draw() {
    let mut component = TopicDetailsComponent::new();
    let mut out = Outbox::new();
    component
        .update(&Action::TopicDetails(vec![topic("travel-stories", 0)]), &mut out)
        .unwrap();
    assert_eq!(component.details[0].name, "travel-stories");
    assert!(!component.refreshing_data);
    let mut block = VerticalScrollableBlock::new(component);
    let bar = block.render_scroll(20);
    assert_eq!(bar.content_length, 0);
    assert_eq!(block.scroll, 0);
}

#[test]
fn test_draw_out_of_bounds() {
    let mut component = TopicDetailsComponent::new();
    let mut out = Outbox::new();
    component
        .update(&Action::TopicDetails(vec![topic("travel-stories", 0)]), &mut out)
        .unwrap();
    let mut block = VerticalScrollableBlock::new(component);
    assert_eq!(block.render_scroll(3).content_length, 0);
}

#[test]
fn topic_details_navigation() {
    let mut component = TopicDetailsComponent::new();
    component.next();
    assert_eq!(component.selected, None);
    component.details = vec![topic("a", 2), topic("b", 1)];
    assert_eq!(component.content_height(), 3);
    component.previous();
    assert_eq!(component.selected, Some(0));
    component.next();
    component.next();
    component.next();
    assert_eq!(component.selected, Some(2));
    component.previous();
    assert_eq!(component.selected, Some(1));
    component.first();
    assert_eq!(component.selected, Some(0));
    component.last();
    assert_eq!(component.selected, Some(2));
}

#[test]
fn topic_details_refresh_requests_each_topic_once() {
    let mut component = TopicDetailsComponent::new();
    let mut out = Outbox::new();
    component.update(&Action::RequestTopicDetails(vec![]), &mut out).unwrap();
    assert!(!component.refreshing_data);
    component
        .update(&Action::TopicDetails(vec![topic("a", 1), topic("b", 0), topic("a", 2)]), &mut out)
        .unwrap();
    component.handle_key_events(key('p'), &mut out).unwrap();
    assert_eq!(out.len(), 0);
    component.handle_key_events(KeyEvent::with_ctrl(KeyCode::Char('p')), &mut out).unwrap();
    assert!(component.refreshing_data);
    let sent = out.take_pending();
    assert_eq!(sent.len(), 2);
    assert!(matches!(&sent[0], Action::Notification(n) if n.level == Level::Info && n.message == "Refreshing data"));
    assert!(matches!(&sent[1], Action::RequestTopicDetails(names) if names == &vec!["a".to_string(), "b".to_string()]));
    component.update(&Action::TopicDetails(vec![topic("a", 1)]), &mut out).unwrap();
    assert!(!component.refreshing_data);
    component.update(&Action::RequestTopicDetails(vec![]), &mut out).unwrap();
    assert!(component.refreshing_data);
}

#[test]
fn topic_details_tick_wraps() {
    let mut component = TopicDetailsComponent::new();
    let mut out = Outbox::new();
    component.update(&Action::Tick, &mut out).unwrap();
    assert_eq!(component.throbber_index, 1);
    component.throbber_index = i8::MAX;
    component.update(&Action::Tick, &mut out).unwrap();
    assert_eq!(component.throbber_index, 0);
}

#[test]
fn decorator_scroll_keys_and_clamp() {
    let mut inner = TopicDetailsComponent::new();
    inner.details = vec![topic("a", 45)];
    let mut block = VerticalScrollableBlock::new(inner);
    let mut out = Outbox::new();
    let bar = block.render_scroll(20);
    assert_eq!(bar.content_length, 27);
    assert_eq!(block.scroll_length, 27);
    for _ in 0..40 {
        block.handle_key_events(key('j'), &mut out).unwrap();
    }
    assert_eq!(block.scroll, 27);
    assert_eq!(block.inner().selected, None);
    block.handle_key_events(KeyEvent::new(KeyCode::Up), &mut out).unwrap();
    assert_eq!(block.scroll, 26);
    block.handle_key_events(key('['), &mut out).unwrap();
    assert_eq!(block.scroll, 0);
    block.handle_key_events(key(']'), &mut out).unwrap();
    assert_eq!(block.scroll, 27);
    let bar = block.render_scroll(40);
    assert_eq!(bar.content_length, 7);
    assert_eq!(bar.position, 7);
    let bar = block.render_scroll(50);
    assert_eq!(bar.content_length, 0);
    assert_eq!(block.scroll, 0);
}

#[test]
fn decorator_delegates_other_keys() {
    let details = vec![topic("a", 3), topic("b", 1)];
    let mut direct = TopicDetailsComponent::new();
    direct.details = details.clone();
    let mut wrapped_inner = TopicDetailsComponent::new();
    wrapped_inner.details = details;
    let mut block = VerticalScrollableBlock::new(wrapped_inner);
    let mut out_direct = Outbox::new();
    let mut out_block = Outbox::new();
    let ctrl_p = KeyEvent::with_ctrl(KeyCode::Char('p'));
    let a = direct.handle_key_events(ctrl_p, &mut out_direct);
    let b = block.handle_key_events(ctrl_p, &mut out_block);
    assert!(matches!((a, b), (Ok(None), Ok(None))));
    assert_eq!(out_direct.len(), 2);
    assert_eq!(out_block.len(), 2);
    assert_eq!(direct.refreshing_data, block.inner().refreshing_data);
    assert_eq!(block.scroll, 0);
    assert_eq!(block.id(), direct.id());
    assert_eq!(block.shortcuts().len(), direct.shortcuts().len());
    let context = RenderContext { focused: ComponentName::TopicDetails };
    let plain = Decoration { border: BorderKind::Rounded, emphasized: false };
    assert_eq!(block.make_block_focused(&context, plain), direct.make_block_focused(&context, plain));
    assert!(block.make_block_focused(&context, plain).emphasized);
    let other = RenderContext { focused: ComponentName::Help };
    assert_eq!(block.make_block_focused(&other, plain), plain);
}

#[test]
fn schemas_sections_note_missing_schema() {
    let mut component = SchemasComponent::new();
    let mut out = Outbox::new();
    let key = SchemaDetail { id: "3".to_string(), url: "http://r/3".to_string(), response: None };
    let value = SchemaDetail {
        id: "7".to_string(),
        url: "http://r/7".to_string(),
        response: Some("{\"type\": \"string\"}".to_string()),
    };
    component.update(&Action::Schemas(Some(key), Some(value)), &mut out).unwrap();
    let sections = component.sections();
    assert_eq!(sections.len(), 4);
    assert_eq!(sections[0], ("Key schema URL  : ".to_string(), "http://r/3".to_string()));
    assert_eq!(sections[1].1, "http://r/7");
    assert_eq!(
        sections[2].1,
        "The Schema 3 is unavailable. Please make sure you configured Yozefu to use the schema registry."
    );
    assert_eq!(sections[3], ("Value schema: ".to_string(), "{\"type\": \"string\"}".to_string()));
    assert!(SchemasComponent::new().sections().is_empty());
}

#[test]
fn decorator_bottom_follows_growing_content() {
    let mut inner = TopicDetailsComponent::new();
    inner.details = vec![topic("a", 30)];
    let mut block = VerticalScrollableBlock::new(inner);
    let mut out = Outbox::new();
    assert_eq!(block.render_scroll(20).content_length, 12);
    block.handle_key_events(key(']'), &mut out).unwrap();
    assert_eq!(block.scroll, 12);
    block
        .update(&Action::TopicDetails(vec![topic("a", 30), topic("b", 15)]), &mut out)
        .unwrap();
    let bar = block.render_scroll(20);
    assert_eq!(bar.content_length, 27);
    assert_eq!(bar.position, 27);
    assert_eq!(block.scroll, 27);
    block.handle_key_events(key('j'), &mut out).unwrap();
    assert_eq!(block.render_scroll(20).position, 27);
    block.handle_key_events(key('k'), &mut out).unwrap();
    assert_eq!(block.scroll, 26);
    block
        .update(&Action::TopicDetails(vec![topic("a", 50)]), &mut out)
        .unwrap();
    assert_eq!(block.render_scroll(20).position, 26);
}

#[test]
fn topic_rows_follow_table_order() {
    let mut component = TopicDetailsComponent::new();
    let mut a = topic("a", 0);
    a.consumer_groups = vec![group("zeta"), group("alpha"), group("mid")];
    let mut b = topic("b", 0);
    b.consumer_groups = vec![group("beta"), group("aaa")];
    component.details = vec![a, b];
    let names: Vec<String> = component.rows().into_iter().map(|g| g.name).collect();
    assert_eq!(names, vec!["alpha", "mid", "zeta", "aaa", "beta"]);
}

#[test]
fn help_config_lines_hide_sensitive_properties() {
    let properties = vec![
        Header { key: "sasl.password".to_string(), value: "SECRET-REDACTED".to_string() },
        Header { key: "bootstrap.servers".to_string(), value: "localhost:9092".to_string() },
        Header { key: "group.id".to_string(), value: "g".repeat(40) },
    ];
    let sensitive = vec!["sasl.password".to_string()];
    let lines = HelpComponent::config_lines(&properties, &sensitive, 60);
    assert_eq!(
        lines,
        vec![
            ("bootstrap.servers".to_string(), "localhost:9092".to_string()),
            ("group.id".to_string(), "g".repeat(30)),
        ]
    );
    assert_eq!(HelpComponent::config_lines(&properties, &vec![], 300).len(), 3);
}

#[test]
fn record_details_scroll_clamps_across_draws() {
    let mut component = RecordDetailsComponent::new();
    let mut out = Outbox::new();
    component.update(&Action::ShowRecord(record("orders", false)), &mut out).unwrap();
    for press in 0..40 {
        component.handle_key_events(key('j'), &mut out).unwrap();
        let bar = component.frame(45, 20);
        assert_eq!(bar.position, (press + 1).min(25));
    }
    assert_eq!(component.frame(45, 20).position, 25);
    component.handle_key_events(key('k'), &mut out).unwrap();
    assert_eq!(component.frame(45, 20).position, 24);
}
