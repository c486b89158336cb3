use change_envelope::encoder::encode_json;
use change_envelope::json::JsonValue;
use change_envelope::model::{ChangeOp, SourceChange, SourceElement};

fn sample_properties() -> Vec<(String, JsonValue)> {
    vec![
        ("field1".to_string(), JsonValue::Text("foo".to_string())),
        ("field2".to_string(), JsonValue::Text("bar".to_string())),
        ("field3".to_string(), JsonValue::Int(4)),
    ]
}

fn sample_node() -> SourceElement {
    SourceElement::Node {
        id: "1".to_string(),
        labels: vec!["Person".to_string()],
        properties: sample_properties(),
    }
}

#[test]
fn test_serialize_node_insert() {
    let node = sample_node();
    let mut change = SourceChange::new(
        ChangeOp::Create,
        node,
        1234567890000000000,
        1234500000123456789,
        1,
        None,
    );
    let current_time = 1234567890001234567;
    change.set_reactivator_end_ns(current_time);
    let serialized = encode_json(change, &None);
    let expected: serde_json::Value = serde_json::from_str(
        r#"{
            "op": "i",
            "payload": {
                "after": {
                    "id": "1",
                    "labels": ["Person"],
                    "properties": {
                        "field1": "foo",
                        "field2": "bar",
                        "field3": 4
                    }
                },
                "source": {
                    "db": "drasi",
                    "lsn": 1,
                    "table": "node",
                    "ts_ns": 1234500000123456789
                }
            },
            "reactivatorStart_ns": 1234567890000000000,
            "reactivatorEnd_ns": 1234567890001234567
        }"#,
    )
    .unwrap();
    println!("Serialized: {}", serialized);
    assert_eq!(
        serde_json::from_str::<serde_json::Value>(&serialized).unwrap(),
        expected
    );
}

#[test]
fn test_serialize_relation_insert() {
    let relation = SourceElement::Relation {
        id: "1".to_string(),
        labels: vec!["KNOWS".to_string()],
        properties: sample_properties(),
        start_id: "2".to_string(),
        end_id: "3".to_string(),
    };
    let mut change = SourceChange::new(
        ChangeOp::Create,
        relation,
        1234567890000000000,
        1234500000123456789,
        1,
        None,
    );
    let current_time = 1234567890001234567;
    change.set_reactivator_end_ns(current_time);
    let serialized = encode_json(change, &None);
    let expected: serde_json::Value = serde_json::from_str(
        r#"{
            "op": "i",
            "payload": {
                "after": {
                    "id": "1",
                    "labels": ["KNOWS"],
                    "properties": {
                        "field1": "foo",
                        "field2": "bar",
                        "field3": 4
                    },
                    "startId": "2",
                    "endId": "3"
                },
                "source": {
                    "db": "drasi",
                    "lsn": 1,
                    "table": "rel",
                    "ts_ns": 1234500000123456789
                }
            },
            "reactivatorStart_ns": 1234567890000000000,
            "reactivatorEnd_ns": 1234567890001234567
        }"#,
    )
    .unwrap();
    assert_eq!(
        serde_json::from_str::<serde_json::Value>(&serialized).unwrap(),
        expected
    );
}

#[test]
fn test_serialize_node_update() {
    let node = sample_node();
    let mut change = SourceChange::new(
        ChangeOp::Update,
        node,
        1234567890000000000,
        1234500000123456789,
        1,
        None,
    );
    let current_time = 1234567890001234567;
    change.set_reactivator_end_ns(current_time);
    let serialized = encode_json(change, &None);
    let expected: serde_json::Value = serde_json::from_str(
        r#"{
            "op": "u",
            "payload": {
                "after": {
                    "id": "1",
                    "labels": ["Person"],
                    "properties": {
                        "field1": "foo",
                        "field2": "bar",
                        "field3": 4
                    }
                },
                "source": {
                    "db": "drasi",
                    "lsn": 1,
                    "table": "node",
                    "ts_ns": 1234500000123456789
                }
            },
            "reactivatorEnd_ns": 1234567890001234567,
            "reactivatorStart_ns": 1234567890000000000
        }"#,
    )
    .unwrap();
    assert_eq!(
        serde_json::from_str::<serde_json::Value>(&serialized).unwrap(),
        expected
    );
}

#[test]
fn test_serialize_node_delete() {
    let node = sample_node();
    let mut change = SourceChange::new(
        ChangeOp::Delete,
        node,
        1234567890000000000,
        1234500000123456789,
        1,
        None,
    );
    let current_time = 1234567890001234567;
    change.set_reactivator_end_ns(current_time);
    let serialized = encode_json(change, &None);
    let expected: serde_json::Value = serde_json::from_str(
        r#"{
            "op": "d",
            "payload": {
                "before": {
                    "id": "1",
                    "labels": ["Person"],
                    "properties": {
                        "field1": "foo",
                        "field2": "bar",
                        "field3": 4
                    }
                },
                "source": {
                    "db": "drasi",
                    "lsn": 1,
                    "table": "node",
                    "ts_ns": 1234500000123456789
                }
            },
            "reactivatorEnd_ns": 1234567890001234567,
            "reactivatorStart_ns": 1234567890000000000
        }"#,
    )
    .unwrap();
    assert_eq!(
        serde_json::from_str::<serde_json::Value>(&serialized).unwrap(),
        expected
    );
}
