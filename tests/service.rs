use item_service::audit::{create_audit_record, mask_sensitive_data};
use item_service::config::AppConfig;
use item_service::json::item_json;
use item_service::model::{Env, Item};
use item_service::record::ItemRecord;
use item_service::time::Timestamp;

fn item() -> Item {
    Item {
        id: "test-id".to_string(),
        name: "Test Item".to_string(),
        description: Some("Test Description".to_string()),
        created_at: Timestamp { secs: 1_672_531_200, nanos: 0 },
        classification: "INTERNAL".to_string(),
    }
}

fn env() -> Env {
    Env { now: Timestamp { secs: 1_700_000_000, nanos: 0 }, fresh_id: "audit-1".to_string() }
}

#[test]
fn audit_of_a_creation() {
    let item = item();
    let json = item_json(&item);
    let audit = create_audit_record("create", &item, None, "request-id", &env());
    assert_eq!(audit.event_id, "audit-1");
    assert_eq!(audit.user_id, "system");
    assert_eq!(audit.action, "create");
    assert_eq!(audit.resource_id, "test-id");
    assert_eq!(audit.resource_type, "item");
    assert_eq!(audit.timestamp, env().now);
    assert_eq!(audit.previous_state, None);
    assert_eq!(audit.new_state, Some(json.clone()));
    assert_eq!(audit.request_id, "request-id");
    let expected = format!("{:x}", md5::compute(json.as_bytes()));
    assert_eq!(audit.hash, Some(expected));
    assert_ne!(audit.hash, Some(json));
}

#[test]
fn audit_of_a_deletion_has_no_new_state() {
    let item = item();
    let before = item_json(&item);
    let audit = create_audit_record("delete", &item, Some(before.clone()), "r", &env());
    assert_eq!(audit.new_state, None);
    assert_eq!(audit.previous_state, Some(before));
    assert_eq!(audit.hash.unwrap().len(), 32);
}

#[test]
fn masking_keeps_four_characters() {
    assert_eq!(mask_sensitive_data(""), "****");
    assert_eq!(mask_sensitive_data("abcd"), "****");
    assert_eq!(mask_sensitive_data("abcde"), "abcd*");
    assert_eq!(mask_sensitive_data("secret-token"), "secr********");
    assert_eq!(mask_sensitive_data("ééé"), "éé**");
    assert_eq!(mask_sensitive_data("éé"), "****");
    assert_eq!(mask_sensitive_data("abcdé"), "abcd**");
}

#[test]
fn config_defaults_and_production() {
    let c = AppConfig::from_settings(None, None, None);
    assert_eq!(c.environment, "dev");
    assert_eq!(c.log_level, "INFO");
    assert_eq!(c.table_name, "Items");
    assert!(!c.is_production());
    let p = AppConfig::from_settings(Some("prod".to_string()), Some("DEBUG".to_string()), Some("T".to_string()));
    assert!(p.is_production());
    assert_eq!(p.table_name, "T");
}

#[test]
fn record_holds_every_present_field_as_text() {
    let rec = ItemRecord::from_item(&item());
    assert_eq!(rec.id.as_deref(), Some("test-id"));
    assert_eq!(rec.name.as_deref(), Some("Test Item"));
    assert_eq!(rec.description.as_deref(), Some("Test Description"));
    assert_eq!(rec.created_at.as_deref(), Some("2023-01-01T00:00:00Z"));
    assert_eq!(rec.classification.as_deref(), Some("INTERNAL"));
    let mut bare = item();
    bare.description = None;
    assert_eq!(ItemRecord::from_item(&bare).description, None);
}

#[test]
fn malformed_record_reads_with_defaults() {
    let rec = ItemRecord { id: None, name: None, description: None, created_at: Some("soon".to_string()), classification: None };
    let now = Timestamp { secs: 5, nanos: 6 };
    let i = rec.to_item(now);
    assert_eq!(i.id, "");
    assert_eq!(i.name, "");
    assert_eq!(i.created_at, now);
    assert_eq!(i.classification, "INTERNAL");
    assert!(rec.to_listed_item(now).is_none());
}
