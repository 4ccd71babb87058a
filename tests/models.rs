use item_service::json::{event_json, item_json};
use item_service::model::{default_classification, Env, Item, ItemDraft, ItemEvent, ItemEventType};
use item_service::time::Timestamp;
use serde_json::Value;

fn new_year_2023() -> Timestamp {
    Timestamp::parse_rfc3339("2023-01-01T00:00:00Z").unwrap()
}

fn test_item() -> Item {
    Item {
        id: "test-id".to_string(),
        name: "Test Item".to_string(),
        description: Some("Test Description".to_string()),
        created_at: new_year_2023(),
        classification: "INTERNAL".to_string(),
    }
}

fn object(pairs: &[(&str, Value)]) -> Value {
    let mut m = serde_json::Map::new();
    for (k, v) in pairs {
        m.insert(k.to_string(), v.clone());
    }
    Value::Object(m)
}

fn text(s: &str) -> Value {
    Value::String(s.to_string())
}

#[test]
fn models_test_item_serialization() {
    let item = test_item();
    let json = item_json(&item);
    let expected = object(&[
        ("id", text("test-id")),
        ("name", text("Test Item")),
        ("description", text("Test Description")),
        ("created_at", text("2023-01-01T00:00:00Z")),
        ("classification", text("INTERNAL")),
    ]);
    assert_eq!(serde_json::from_str::<Value>(&json).unwrap(), expected);
}

#[test]
fn test_item_deserialization() {
    let draft = ItemDraft {
        id: Some("test-id".to_string()),
        name: "Test Item".to_string(),
        description: Some("Test Description".to_string()),
        created_at: Some("2023-01-01T00:00:00Z".to_string()),
        classification: Some("INTERNAL".to_string()),
    };
    let item = draft.into_item(&Env::current()).unwrap();
    assert_eq!(item.id, "test-id");
    assert_eq!(item.name, "Test Item");
    assert_eq!(item.description, Some("Test Description".to_string()));
    assert_eq!(item.created_at, new_year_2023());
    assert_eq!(item.classification, "INTERNAL");
}

#[test]
fn test_item_default_values() {
    let draft = ItemDraft {
        id: None,
        name: "Test Item".to_string(),
        description: None,
        created_at: None,
        classification: None,
    };
    let item = draft.into_item(&Env::current()).unwrap();
    assert!(!item.id.is_empty());
    assert_eq!(item.name, "Test Item");
    assert_eq!(item.description, None);
    let now = Timestamp::now();
    assert!(now.secs - item.created_at.secs < 10);
    assert_eq!(item.classification, "INTERNAL");
}

#[test]
fn models_test_item_event_serialization() {
    let event = ItemEvent {
        event_type: ItemEventType::Created,
        item: test_item(),
        timestamp: new_year_2023(),
    };
    let json = event_json(&event);
    let expected = object(&[
        ("event_type", text("Created")),
        (
            "item",
            object(&[
                ("id", text("test-id")),
                ("name", text("Test Item")),
                ("description", text("Test Description")),
                ("created_at", text("2023-01-01T00:00:00Z")),
                ("classification", text("INTERNAL")),
            ]),
        ),
        ("timestamp", text("2023-01-01T00:00:00Z")),
    ]);
    assert_eq!(serde_json::from_str::<Value>(&json).unwrap(), expected);
}

#[test]
fn tests_test_item_serialization() {
    let item = test_item();
    let serialized = item_json(&item);
    let back: Value = serde_json::from_str(&serialized).unwrap();
    assert_eq!(item.id, back["id"].as_str().unwrap());
    assert_eq!(item.name, back["name"].as_str().unwrap());
    assert_eq!(item.description.as_deref(), back["description"].as_str());
    assert_eq!(
        item.created_at,
        Timestamp::parse_rfc3339(back["created_at"].as_str().unwrap()).unwrap()
    );
}

#[test]
fn tests_test_item_event_serialization() {
    let item = test_item();
    let event = ItemEvent {
        event_type: ItemEventType::Created,
        item: item.clone(),
        timestamp: new_year_2023(),
    };
    let serialized = event_json(&event);
    let back: Value = serde_json::from_str(&serialized).unwrap();
    assert_eq!("Created", back["event_type"].as_str().unwrap());
    assert_eq!(item.id, back["item"]["id"].as_str().unwrap());
    assert_eq!(item.name, back["item"]["name"].as_str().unwrap());
    assert_eq!(item.description.as_deref(), back["item"]["description"].as_str());
    assert_eq!(
        item.created_at,
        Timestamp::parse_rfc3339(back["item"]["created_at"].as_str().unwrap()).unwrap()
    );
    assert_eq!(
        event.timestamp,
        Timestamp::parse_rfc3339(back["timestamp"].as_str().unwrap()).unwrap()
    );
}

#[test]
fn test_item_event_type_serialization() {
    let event_types = vec![ItemEventType::Created, ItemEventType::Updated, ItemEventType::Deleted];
    for event_type in event_types {
        let serialized = serde_json::to_string(&event_type.name()).unwrap();
        let name: String = serde_json::from_str(&serialized).unwrap();
        let deserialized = ItemEventType::from_name(&name).unwrap();
        assert_eq!(event_type, deserialized);
    }
    assert_eq!(ItemEventType::from_name("created"), None);
}

#[test]
fn json_strings_are_escaped() {
    let mut item = test_item();
    item.name = "a\"b\\c\n\u{1}é".to_string();
    item.description = None;
    let json = item_json(&item);
    assert!(json.contains("\"name\":\"a\\\"b\\\\c\\n\\u0001é\""));
    let back: Value = serde_json::from_str(&json).unwrap();
    assert_eq!(back["name"].as_str().unwrap(), item.name);
}

#[test]
fn clock_readings_past_9999_are_clamped() {
    assert_eq!(Timestamp::from_clock(5, 7), Timestamp { secs: 5, nanos: 7 });
    assert_eq!(
        Timestamp::from_clock(300_000_000_000, 7),
        Timestamp { secs: 253_402_300_799, nanos: 7 }
    );
}

#[test]
fn absent_description_is_left_out() {
    let mut item = test_item();
    item.description = None;
    let json = item_json(&item);
    assert_eq!(
        json,
        "{\"id\":\"test-id\",\"name\":\"Test Item\",\"created_at\":\"2023-01-01T00:00:00Z\",\"classification\":\"INTERNAL\"}"
    );
}

#[test]
fn default_classification_is_internal() {
    assert_eq!(default_classification(), "INTERNAL");
}

#[test]
fn bad_created_at_is_a_serialization_error() {
    let draft = ItemDraft {
        id: None,
        name: "Widget".to_string(),
        description: None,
        created_at: Some("yesterday".to_string()),
        classification: None,
    };
    let err = draft.into_item(&Env::current()).unwrap_err();
    assert_eq!(err.status_code(), 400);
    assert_eq!(err.message(), "created_at is not an RFC 3339 timestamp");
}

#[test]
fn fresh_ids_are_uuids() {
    let a = Env::current();
    let b = Env::current();
    assert_eq!(a.fresh_id.len(), 36);
    for (i, c) in a.fresh_id.chars().enumerate() {
        if [8, 13, 18, 23].contains(&i) {
            assert_eq!(c, '-');
        } else {
            assert!(c.is_ascii_digit() || ('a'..='f').contains(&c));
        }
    }
    assert_eq!(a.fresh_id.chars().nth(14), Some('4'));
    assert_ne!(a.fresh_id, b.fresh_id);
    assert!(a.now.secs > 1_600_000_000);
}

#[test]
fn timestamps_round_trip_through_text() {
    let t = Timestamp { secs: 1_672_531_200, nanos: 500_000_000 };
    assert_eq!(new_year_2023(), Timestamp { secs: 1_672_531_200, nanos: 0 });
    let s = t.to_rfc3339();
    assert_eq!(s, "2023-01-01T00:00:00.500Z");
    assert_eq!(Timestamp::parse_rfc3339(&s), Some(t));
    assert_eq!(
        Timestamp::parse_rfc3339("2023-01-01T02:00:00+02:00"),
        Some(Timestamp { secs: 1_672_531_200, nanos: 0 })
    );
    assert_eq!(Timestamp::parse_rfc3339("0000-01-01T00:00:00+01:00"), None);
    assert_eq!(Timestamp::parse_rfc3339("not a time"), None);
    assert_eq!(Timestamp::from_parts(0, 1_000_000_000), None);
}
