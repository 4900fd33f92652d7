use yozefu_tui::action::{Action, ComponentName, KafkaRecord};
use yozefu_tui::component::Component;
use yozefu_tui::dispatch::Dispatcher;
use yozefu_tui::help::HelpComponent;
use yozefu_tui::key::{KeyCode, KeyEvent};
use yozefu_tui::outbox::{Outbox, TuiError};
use yozefu_tui::panel::Panel;
use yozefu_tui::record_details::RecordDetailsComponent;
use yozefu_tui::schemas::SchemasComponent;

fn record_x() -> KafkaRecord {
    KafkaRecord {
        topic: "record-x".to_string(),
        timestamp: None,
        partition: 0,
        offset: 7,
        size: 12,
        headers: vec![],
        key_schema: None,
        value_schema: None,
        key: "x".to_string(),
        value: "payload".to_string(),
    }
}

fn panels() -> Dispatcher<Panel> {
    Dispatcher::new(vec![
        Panel::RecordDetails(RecordDetailsComponent::new()),
        Panel::Schemas(SchemasComponent::new()),
        Panel::Help(HelpComponent::new()),
    ])
}

#[test]
fn selection_changed_reaches_other_panel() {
    let mut host = panels();
    host.handle_key(0, KeyEvent::new(KeyCode::Char('j'))).unwrap().unwrap();
    host.publish(Action::ShowRecord(record_x())).unwrap();
    assert_eq!(host.pending(), 1);
    let log = host.dispatch();
    assert_eq!(log, vec![vec![0, 1, 2]]);
    match &host.panels[0] {
        Panel::RecordDetails(p) => {
            assert_eq!(p.record.as_ref().unwrap().topic, "record-x");
            assert_eq!(p.scroll.value(), 0);
        }
        _ => panic!("panel order changed"),
    }
    assert_eq!(host.pending(), 0);
}

#[test]
fn published_actions_are_delivered_once_each() {
    let mut host = panels();
    host.publish(Action::ShowRecord(record_x())).unwrap();
    host.publish(Action::Tick).unwrap();
    assert_eq!(host.dispatch(), vec![vec![0, 1, 2], vec![0, 1, 2]]);
    let mut with_schema = record_x();
    with_schema.key_schema = None;
    let r = host.handle_key(0, KeyEvent::new(KeyCode::Char('o')));
    assert!(matches!(r, Some(Ok(None))));
    assert_eq!(host.pending(), 1);
    assert_eq!(host.dispatch(), vec![vec![0, 1, 2]]);
    assert_eq!(host.pending(), 0);
    assert!(host.dispatch().is_empty());
    assert!(host.handle_key(9, KeyEvent::new(KeyCode::Enter)).is_none());
}

#[test]
fn publish_after_shutdown_is_benign() {
    let mut host = panels();
    host.publish(Action::ShowRecord(record_x())).unwrap();
    host.dispatch();
    host.close();
    let r = host.handle_key(0, KeyEvent::new(KeyCode::Char('o')));
    assert!(matches!(r, Some(Ok(None))));
    assert_eq!(host.pending(), 0);
    assert_eq!(host.publish(Action::NewView(ComponentName::Help)), Err(TuiError::ChannelClosed));
    assert!(host.dispatch().is_empty());
}

#[test]
fn outbox_refuses_after_close() {
    let mut out = Outbox::new();
    assert!(out.is_open());
    assert_eq!(out.publish(Action::Render), Ok(()));
    out.close();
    assert!(!out.is_open());
    assert_eq!(out.publish(Action::Render), Err(TuiError::ChannelClosed));
    assert_eq!(out.len(), 1);
    let mut help = HelpComponent::new();
    assert!(matches!(help.update(&Action::Tick, &mut out), Ok(None)));
}
