use item_service::consumer::{dispatch, ConsumerAction, ConsumerOutcome, EventBatch};
use item_service::error::AppError;
use item_service::model::{Item, ItemEvent, ItemEventType};
use item_service::time::Timestamp;

fn event(kind: ItemEventType, id: &str) -> ItemEvent {
    ItemEvent {
        event_type: kind,
        item: Item {
            id: id.to_string(),
            name: "Test Item".to_string(),
            description: None,
            created_at: Timestamp { secs: 0, nanos: 0 },
            classification: "INTERNAL".to_string(),
        },
        timestamp: Timestamp { secs: 0, nanos: 0 },
    }
}

#[test]
fn dispatch_notes_each_kind() {
    let d = dispatch(&event(ItemEventType::Created, "a"));
    assert_eq!(d.note, "Item created event for item ID: a");
    assert_eq!(d.delay_ms, 100);
    assert_eq!(dispatch(&event(ItemEventType::Updated, "b")).note, "Item updated event for item ID: b");
    let d = dispatch(&event(ItemEventType::Deleted, "c"));
    assert_eq!(d.note, "Item deleted event for item ID: c");
    assert_eq!(d.item_id, "c");
    assert_eq!(d.event_type, ItemEventType::Deleted);
}

#[test]
fn batch_is_consumed_in_order() {
    let (b, a) = EventBatch::start(vec![Some("first".to_string()), Some("second".to_string())]);
    assert!(matches!(&a, ConsumerAction::Decode(body) if body == "first"));
    let (b, a) = b.advance(ConsumerOutcome::Decoded(Ok(event(ItemEventType::Created, "1"))));
    assert!(matches!(&a, ConsumerAction::Handle(d) if d.item_id == "1"));
    let (b, a) = b.advance(ConsumerOutcome::Handled);
    assert!(matches!(&a, ConsumerAction::Decode(body) if body == "second"));
    let (b, a) = b.advance(ConsumerOutcome::Decoded(Ok(event(ItemEventType::Deleted, "2"))));
    assert!(matches!(&a, ConsumerAction::Handle(d) if d.event_type == ItemEventType::Deleted));
    let (_, a) = b.advance(ConsumerOutcome::Handled);
    assert!(matches!(a, ConsumerAction::Finish(Ok(()))));
}

#[test]
fn empty_batch_finishes_at_once() {
    let (_, a) = EventBatch::start(Vec::new());
    assert!(matches!(a, ConsumerAction::Finish(Ok(()))));
}

#[test]
fn message_without_body_fails_the_batch() {
    let (b, _) = EventBatch::start(vec![Some("first".to_string()), None, Some("third".to_string())]);
    let (b, _) = b.advance(ConsumerOutcome::Decoded(Ok(event(ItemEventType::Created, "1"))));
    let (_, a) = b.advance(ConsumerOutcome::Handled);
    match a {
        ConsumerAction::Finish(Err(AppError::Internal(m))) => assert_eq!(m, "SQS message has no body"),
        other => panic!("unexpected {:?}", other),
    }
}

#[test]
fn unreadable_event_fails_the_batch() {
    let (b, _) = EventBatch::start(vec![Some("{".to_string()), Some("later".to_string())]);
    let (_, a) = b.advance(ConsumerOutcome::Decoded(Err("EOF while parsing".to_string())));
    match a {
        ConsumerAction::Finish(Err(AppError::Serialization(m))) => assert_eq!(m, "EOF while parsing"),
        other => panic!("unexpected {:?}", other),
    }
}

#[test]
fn outcome_out_of_turn_fails_the_batch() {
    let (b, _) = EventBatch::start(vec![Some("first".to_string())]);
    let (_, a) = b.advance(ConsumerOutcome::Handled);
    assert!(matches!(a, ConsumerAction::Finish(Err(AppError::Internal(_)))));
}
