use gql_error::error::{
    GraphQLError, GraphQLErrorLocation, GraphQLErrorMessage, GraphQLErrorPathParam,
};
use gql_error::wire::errors_from_value;
use serde_json::Value;

fn parse(text: &str) -> Value {
    serde_json::from_str(text).unwrap()
}

fn steps(path: &[GraphQLErrorPathParam]) -> Vec<String> {
    path.iter()
        .map(|step| match step {
            GraphQLErrorPathParam::String(name) => format!("field {}", name),
            GraphQLErrorPathParam::Number(index) => format!("index {}", index),
        })
        .collect()
}

#[test]
fn decoded_payload_answers_for_its_code() {
    let payload = parse(r#"[{"message":"bad input","extensions":{"code":"BAD_INPUT"}}]"#);
    let entries = errors_from_value(&payload).unwrap();
    let error = GraphQLError::with_json(entries);
    assert!(error.contains_error_code("BAD_INPUT"));
    assert!(!error.contains_error_code("OTHER"));
    assert!(error.contains_error_message("bad input"));
    assert_eq!(error.message(), "Look at json field for more details");
}

#[test]
fn path_decodes_to_names_and_indices() {
    let payload = parse(r#"["user", 0, "name"]"#);
    let path: Vec<GraphQLErrorPathParam> = payload
        .as_array()
        .unwrap()
        .iter()
        .map(|value| GraphQLErrorPathParam::from_value(value).unwrap())
        .collect();
    assert!(matches!(&path[0], GraphQLErrorPathParam::String(name) if name == "user"));
    assert!(matches!(&path[1], GraphQLErrorPathParam::Number(0)));
    assert!(matches!(&path[2], GraphQLErrorPathParam::String(name) if name == "name"));
    assert_eq!(path.len(), 3);
}

#[test]
fn path_of_an_entry_decodes_in_order() {
    let payload = parse(r#"{"message":"m","path":["user", 0, "name"]}"#);
    let entry = GraphQLErrorMessage::from_value(&payload).unwrap();
    let path = entry.path().as_ref().unwrap();
    assert_eq!(steps(path), vec!["field user", "index 0", "field name"]);
}

#[test]
fn numeric_text_in_a_path_stays_a_name() {
    let step = GraphQLErrorPathParam::from_value(&parse(r#""7""#)).unwrap();
    assert!(matches!(step, GraphQLErrorPathParam::String(name) if name == "7"));
    let step = GraphQLErrorPathParam::from_value(&parse("7")).unwrap();
    assert!(matches!(step, GraphQLErrorPathParam::Number(7)));
}

#[test]
fn path_index_is_bounded() {
    let step = GraphQLErrorPathParam::from_value(&parse("4294967295")).unwrap();
    assert!(matches!(step, GraphQLErrorPathParam::Number(4294967295)));
    assert!(GraphQLErrorPathParam::from_value(&parse("4294967296")).is_none());
    assert!(GraphQLErrorPathParam::from_value(&parse("18446744073709551615")).is_none());
    assert!(GraphQLErrorPathParam::from_value(&parse("-1")).is_none());
    assert!(GraphQLErrorPathParam::from_value(&parse("1.5")).is_none());
    assert!(GraphQLErrorPathParam::from_value(&parse("1.0")).is_none());
}

#[test]
fn other_values_are_no_path_steps() {
    for text in ["null", "true", "[]", "{}", r#"["a"]"#] {
        assert!(GraphQLErrorPathParam::from_value(&parse(text)).is_none());
    }
    let payload = parse(r#"{"message":"m","path":["a", true]}"#);
    assert!(GraphQLErrorMessage::from_value(&payload).is_none());
}

#[test]
fn location_decodes_line_and_column() {
    let location =
        GraphQLErrorLocation::from_value(&parse(r#"{"line": 3, "column": 14}"#)).unwrap();
    assert_eq!(location.line(), 3);
    assert_eq!(location.column(), 14);
    let location =
        GraphQLErrorLocation::from_value(&parse(r#"{"column": 0, "line": 4294967295, "x": 1}"#))
            .unwrap();
    assert_eq!(location.line(), 4294967295);
    assert_eq!(location.column(), 0);
}

#[test]
fn location_needs_both_numbers() {
    for text in [
        r#"{"line": 3}"#,
        r#"{"column": 3}"#,
        r#"{"line": "3", "column": 1}"#,
        r#"{"line": 3, "column": null}"#,
        r#"{"line": -3, "column": 1}"#,
        r#"{"line": 3.5, "column": 1}"#,
        r#"{"line": 3, "column": 4294967296}"#,
        r#"[3, 1]"#,
        "null",
        "3",
    ] {
        assert!(GraphQLErrorLocation::from_value(&parse(text)).is_none(), "{}", text);
    }
}

#[test]
fn entry_decodes_all_its_members() {
    let payload = parse(
        r#"{
            "message": "Cannot query field",
            "locations": [{"line": 2, "column": 3}, {"line": 5, "column": 8}],
            "extensions": {"code": "GRAPHQL_VALIDATION_FAILED", "retry": false, "depth": 2},
            "path": ["hero", "friends", 1, "name"]
        }"#,
    );
    let entry = GraphQLErrorMessage::from_value(&payload).unwrap();
    assert_eq!(entry.message(), "Cannot query field");
    let locations = entry.locations().as_ref().unwrap();
    assert_eq!(locations.len(), 2);
    assert_eq!((locations[0].line(), locations[0].column()), (2, 3));
    assert_eq!((locations[1].line(), locations[1].column()), (5, 8));
    let extensions = entry.extensions().as_ref().unwrap();
    assert_eq!(extensions.len(), 3);
    assert_eq!(extensions.get("retry"), Some(&Value::Bool(false)));
    assert_eq!(extensions.get("depth").and_then(Value::as_u64), Some(2));
    assert_eq!(entry.code(), Some("GRAPHQL_VALIDATION_FAILED"));
    let path = entry.path().as_ref().unwrap();
    assert_eq!(steps(path), vec!["field hero", "field friends", "index 1", "field name"]);
}

#[test]
fn entry_needs_only_its_message() {
    let entry = GraphQLErrorMessage::from_value(&parse(r#"{"message": "m"}"#)).unwrap();
    assert_eq!(entry.message(), "m");
    assert!(entry.locations().is_none());
    assert!(entry.extensions().is_none());
    assert!(entry.path().is_none());
    assert_eq!(entry.code(), None);
}

#[test]
fn null_stands_for_a_missing_member() {
    let payload =
        parse(r#"{"message": "m", "locations": null, "extensions": null, "path": null}"#);
    let entry = GraphQLErrorMessage::from_value(&payload).unwrap();
    assert!(entry.locations().is_none());
    assert!(entry.extensions().is_none());
    assert!(entry.path().is_none());
}

#[test]
fn empty_members_are_kept_apart_from_missing_ones() {
    let payload = parse(r#"{"message": "", "locations": [], "extensions": {}, "path": []}"#);
    let entry = GraphQLErrorMessage::from_value(&payload).unwrap();
    assert_eq!(entry.message(), "");
    assert_eq!(entry.locations().as_ref().map(|l| l.len()), Some(0));
    assert_eq!(entry.extensions().as_ref().map(|e| e.len()), Some(0));
    assert_eq!(entry.path().as_ref().map(|p| p.len()), Some(0));
}

#[test]
fn members_of_other_names_are_passed_over() {
    let payload = parse(r#"{"message": "m", "status": 500, "Path": [true]}"#);
    let entry = GraphQLErrorMessage::from_value(&payload).unwrap();
    assert_eq!(entry.message(), "m");
    assert!(entry.path().is_none());
}

#[test]
fn entry_of_another_shape_is_refused() {
    for text in [
        r#"{}"#,
        r#"{"locations": []}"#,
        r#"{"message": null}"#,
        r#"{"message": 1}"#,
        r#"{"message": ["m"]}"#,
        r#"{"message": "m", "locations": {}}"#,
        r#"{"message": "m", "locations": [{"line": 1}]}"#,
        r#"{"message": "m", "locations": [{"line": 1, "column": 1}, 2]}"#,
        r#"{"message": "m", "extensions": []}"#,
        r#"{"message": "m", "extensions": "code"}"#,
        r#"{"message": "m", "path": "a"}"#,
        r#"{"message": "m", "path": [null]}"#,
        r#"{"message": "m", "path": [-1]}"#,
        r#"["m", null, null, null]"#,
        r#""m""#,
        "null",
    ] {
        assert!(GraphQLErrorMessage::from_value(&parse(text)).is_none(), "{}", text);
    }
}

#[test]
fn error_list_decodes_in_order() {
    let payload = parse(r#"[{"message": "first"}, {"message": "second"}, {"message": "third"}]"#);
    let entries = errors_from_value(&payload).unwrap();
    let messages: Vec<&str> = entries.iter().map(|entry| entry.message()).collect();
    assert_eq!(messages, vec!["first", "second", "third"]);
}

#[test]
fn empty_error_list_decodes_to_no_entries() {
    let entries = errors_from_value(&parse("[]")).unwrap();
    assert!(entries.is_empty());
    let error = GraphQLError::with_json(entries);
    assert_eq!(error.json().map(|entries| entries.len()), Some(0));
}

#[test]
fn error_list_is_refused_as_a_whole() {
    for text in [
        r#"{"message": "m"}"#,
        r#"[{"message": "m"}, {"msg": "m"}]"#,
        r#"[{"message": "m"}, null]"#,
        r#"[[]]"#,
        "null",
        r#""errors""#,
        "0",
    ] {
        assert!(errors_from_value(&parse(text)).is_none(), "{}", text);
    }
}

#[test]
fn decoded_extensions_are_a_copy() {
    let mut payload = parse(r#"{"message": "m", "extensions": {"code": "A"}}"#);
    let entry = GraphQLErrorMessage::from_value(&payload).unwrap();
    payload["extensions"]["code"] = Value::String("B".to_string());
    assert_eq!(entry.code(), Some("A"));
    let copy = entry.clone();
    assert_eq!(copy.code(), Some("A"));
    assert_eq!(copy.extensions(), entry.extensions());
}

#[test]
fn decoded_code_of_another_kind_matches_nothing() {
    let payload = parse(r#"[{"message": "m", "extensions": {"code": 404}}]"#);
    let error = GraphQLError::with_json(errors_from_value(&payload).unwrap());
    assert!(!error.contains_error_code("404"));
    assert!(!error.contains_error_code(""));
}

#[test]
fn clone_keeps_every_member_of_an_entry() {
    let payload = parse(
        r#"{"message": "m", "locations": [{"line": 1, "column": 2}], "extensions": {"k": [1]}, "path": ["a", 3]}"#,
    );
    let entry = GraphQLErrorMessage::from_value(&payload).unwrap();
    let copy = entry.clone();
    assert_eq!(copy.message(), "m");
    let locations = copy.locations().as_ref().unwrap();
    assert_eq!((locations[0].line(), locations[0].column()), (1, 2));
    assert_eq!(copy.extensions(), entry.extensions());
    assert_eq!(steps(copy.path().as_ref().unwrap()), vec!["field a", "index 3"]);
    assert_eq!(format!("{:?}", copy), format!("{:?}", entry));
}
