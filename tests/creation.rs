use aws_sdk_dynamodb::model::AttributeValue;
use create_function::context::table_name_of;
use create_function::creation::{
    confirmation, plan_creation, prepare_creation, settle_creation, CreateError,
};
use create_function::record::add_system_fields;
use create_function::text::new_record_id;
use serde_json::Value;
use std::collections::{HashMap, HashSet};

fn json(text: &str) -> Value {
    serde_json::from_str(text).unwrap()
}

fn is_uuid_v4_text(s: &str) -> bool {
    let chars: Vec<char> = s.chars().collect();
    if chars.len() != 36 {
        return false;
    }
    for (i, c) in chars.iter().enumerate() {
        let ok = if i == 8 || i == 13 || i == 18 || i == 23 {
            *c == '-'
        } else {
            c.is_ascii_digit() || ('a'..='f').contains(c)
        };
        if !ok {
            return false;
        }
    }
    chars[14] == '4' && "89ab".contains(chars[19])
}

#[test]
fn stored_record_of_the_function_scenario() {
    let input = json(r#"{"name": "create_function", "label": "Create Function"}"#);
    let config = json(r#"{"table_name": "functions"}"#);
    let creation = prepare_creation(input, &config, true).unwrap();
    assert_eq!(creation.confirmation.message, "function created successfully");
    assert_eq!(creation.confirmation.id.len(), 36);
    assert!(is_uuid_v4_text(&creation.confirmation.id));
    let put = creation.put.unwrap();
    assert_eq!(put.table_name, "functions");
    let item = put.item;
    assert_eq!(item.len(), 6);
    assert_eq!(item.get("name"), Some(&AttributeValue::S("create_function".to_string())));
    assert_eq!(item.get("label"), Some(&AttributeValue::S("Create Function".to_string())));
    assert_eq!(item.get("id"), Some(&AttributeValue::S(creation.confirmation.id.clone())));
    let created = match item.get("created_at") {
        Some(AttributeValue::N(n)) => n.parse::<i128>().unwrap(),
        other => panic!("created_at is {:?}", other),
    };
    let updated = match item.get("updated_at") {
        Some(AttributeValue::N(n)) => n.parse::<i128>().unwrap(),
        other => panic!("updated_at is {:?}", other),
    };
    assert!(created > 0);
    assert!(updated >= created);
    assert_eq!(item.get("deleted_at"), Some(&AttributeValue::Null(true)));
}

#[test]
fn full_payload_is_kept() {
    let input = json(
        r#"{
            "name": "create_function",
            "label": "Create Function",
            "description": "This function can be used to create a function in database",
            "language": "rust",
            "input_schema": {},
            "logo_url": "https://egnitely.com/egnitely.png",
            "repository": "https://github.com/egnitely/egnitely-functions",
            "branch": "main",
            "repo_sub_directory": "create_function"
        }"#,
    );
    let config = json(r#"{"table_name": "functions"}"#);
    let creation = prepare_creation(input, &config, true).unwrap();
    assert_eq!(creation.confirmation.message, "function created successfully");
    let item = creation.put.unwrap().item;
    assert_eq!(item.len(), 13);
    assert_eq!(item.get("language"), Some(&AttributeValue::S("rust".to_string())));
    assert_eq!(item.get("input_schema"), Some(&AttributeValue::M(HashMap::new())));
}

#[test]
fn confirmation_without_store_writes_nothing() {
    let input = json(r#"{"name": "create_function"}"#);
    let creation = prepare_creation(input, &json("{}"), false).unwrap();
    assert!(creation.put.is_none());
    assert_eq!(creation.confirmation.message, "function created successfully");
    assert!(is_uuid_v4_text(&creation.confirmation.id));
}

#[test]
fn missing_table_name_is_a_config_error() {
    let input = json(r#"{"name": "create_function"}"#);
    let result = prepare_creation(input, &json(r#"{"table": "functions"}"#), true);
    assert_eq!(result.unwrap_err(), CreateError::Config);
}

#[test]
fn table_name_of_another_type_is_a_config_error() {
    let input = json(r#"{"name": "create_function"}"#);
    let result = prepare_creation(input, &json(r#"{"table_name": 7}"#), true);
    assert_eq!(result.unwrap_err(), CreateError::Config);
}

#[test]
fn table_name_lookup() {
    assert_eq!(
        table_name_of(&json(r#"{"table_name": "functions", "other": 1}"#)),
        Some("functions".to_string())
    );
    assert_eq!(table_name_of(&json(r#"{"table_name": null}"#)), None);
    assert_eq!(table_name_of(&json(r#"["functions"]"#)), None);
    assert_eq!(table_name_of(&json(r#""functions""#)), None);
}

#[test]
fn array_input_is_a_serialization_error() {
    let input = json(r#"[{"name": "create_function"}]"#);
    let config = json(r#"{"table_name": "functions"}"#);
    assert_eq!(prepare_creation(input, &config, true).unwrap_err(), CreateError::Serialization);
}

#[test]
fn scalar_input_is_a_serialization_error() {
    let config = json(r#"{"table_name": "functions"}"#);
    assert_eq!(
        prepare_creation(json("42"), &config, false).unwrap_err(),
        CreateError::Serialization
    );
    assert_eq!(
        prepare_creation(json(r#""text""#), &config, true).unwrap_err(),
        CreateError::Serialization
    );
}

#[test]
fn serialization_error_comes_before_config_error() {
    let input = json("[1, 2]");
    assert_eq!(prepare_creation(input, &json("{}"), true).unwrap_err(), CreateError::Serialization);
}

#[test]
fn two_identical_calls_give_two_records() {
    let config = json(r#"{"table_name": "functions"}"#);
    let first = prepare_creation(json(r#"{"name": "a"}"#), &config, true).unwrap();
    let second = prepare_creation(json(r#"{"name": "a"}"#), &config, true).unwrap();
    assert_ne!(first.confirmation.id, second.confirmation.id);
    let first_item = first.put.unwrap().item;
    let second_item = second.put.unwrap().item;
    assert_ne!(first_item.get("id"), second_item.get("id"));
}

#[test]
fn identifiers_are_canonical_and_distinct() {
    let mut seen = HashSet::new();
    for _ in 0..10_000 {
        let id = new_record_id();
        assert!(is_uuid_v4_text(&id), "{}", id);
        assert!(seen.insert(id));
    }
}

#[test]
fn system_fields_overwrite_payload_fields() {
    let mut item: HashMap<String, AttributeValue> = HashMap::new();
    item.insert("id".to_string(), AttributeValue::S("mine".to_string()));
    item.insert("deleted_at".to_string(), AttributeValue::N("5".to_string()));
    item.insert("name".to_string(), AttributeValue::S("kept".to_string()));
    add_system_fields(&mut item, "fresh".to_string(), 1_665_000_000_123_456_789);
    assert_eq!(item.len(), 5);
    assert_eq!(item.get("id"), Some(&AttributeValue::S("fresh".to_string())));
    assert_eq!(item.get("name"), Some(&AttributeValue::S("kept".to_string())));
    assert_eq!(
        item.get("created_at"),
        Some(&AttributeValue::N("1665000000123456789".to_string()))
    );
    assert_eq!(item.get("updated_at"), item.get("created_at"));
    assert_eq!(item.get("deleted_at"), Some(&AttributeValue::Null(true)));
}

#[test]
fn timestamps_render_in_decimal() {
    let mut item: HashMap<String, AttributeValue> = HashMap::new();
    add_system_fields(&mut item, "x".to_string(), -42);
    assert_eq!(item.get("created_at"), Some(&AttributeValue::N("-42".to_string())));
    let mut zero: HashMap<String, AttributeValue> = HashMap::new();
    add_system_fields(&mut zero, "x".to_string(), 0);
    assert_eq!(zero.get("updated_at"), Some(&AttributeValue::N("0".to_string())));
    assert_eq!(zero.len(), 4);
}

#[test]
fn plan_with_failed_conversion() {
    let failed = serde_dynamo::aws_sdk_dynamodb_0_17::to_item(json("[]"));
    assert!(failed.is_err());
    let result = plan_creation(failed, true, Some("functions".to_string()), "x".to_string(), 1);
    assert_eq!(result.unwrap_err(), CreateError::Serialization);
}

#[test]
fn plan_without_store_ignores_table() {
    let creation = plan_creation(Ok(HashMap::new()), false, None, "abc".to_string(), 1).unwrap();
    assert!(creation.put.is_none());
    assert_eq!(creation.confirmation.id, "abc");
}

#[test]
fn plan_with_store_builds_the_put() {
    let mut payload: HashMap<String, AttributeValue> = HashMap::new();
    payload.insert("name".to_string(), AttributeValue::S("create_function".to_string()));
    let creation =
        plan_creation(Ok(payload), true, Some("functions".to_string()), "abc".to_string(), 77)
            .unwrap();
    assert_eq!(creation.confirmation, confirmation("abc".to_string()));
    let put = creation.put.unwrap();
    assert_eq!(put.table_name, "functions");
    assert_eq!(put.item.get("id"), Some(&AttributeValue::S("abc".to_string())));
    assert_eq!(put.item.get("created_at"), Some(&AttributeValue::N("77".to_string())));
    assert_eq!(put.item.get("name"), Some(&AttributeValue::S("create_function".to_string())));
}

#[test]
fn plan_with_store_and_no_table_fails() {
    let result = plan_creation(Ok(HashMap::new()), true, None, "abc".to_string(), 1);
    assert_eq!(result.unwrap_err(), CreateError::Config);
}

#[test]
fn settling_after_the_write() {
    let done = settle_creation(confirmation("abc".to_string()), Ok(())).unwrap();
    assert_eq!(done.message, "function created successfully");
    assert_eq!(done.id, "abc");
    let failed =
        settle_creation(confirmation("abc".to_string()), Err("throttled".to_string()));
    assert_eq!(failed.unwrap_err(), CreateError::Storage("throttled".to_string()));
}
