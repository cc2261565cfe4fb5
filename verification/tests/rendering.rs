use gql_error::error::{GraphQLError, GraphQLErrorMessage};

fn entry(message: &str) -> GraphQLErrorMessage {
    GraphQLErrorMessage::new(message.to_string(), None, None, None)
}

#[test]
fn transport_error_renders_as_one_line() {
    let error = GraphQLError::with_text("boom");
    assert_eq!(gql_error::error::format(&error), "\nGQLClient Error: boom\n");
}

#[test]
fn response_error_renders_one_line_per_entry() {
    let error = GraphQLError::with_message_and_json(
        "see details",
        vec![entry("field X not found"), entry("unauthorized")],
    );
    assert_eq!(
        gql_error::error::format(&error),
        "\nGQLClient Error: see details\nMessage: field X not found\nMessage: unauthorized\n"
    );
}

#[test]
fn rendering_keeps_the_order_of_the_entries() {
    let error =
        GraphQLError::with_message_and_json("s", vec![entry("b"), entry("a"), entry("c")]);
    assert_eq!(
        gql_error::error::format(&error),
        "\nGQLClient Error: s\nMessage: b\nMessage: a\nMessage: c\n"
    );
}

#[test]
fn response_error_without_entries_renders_the_headline_only() {
    let error = GraphQLError::with_message_and_json("nothing", Vec::new());
    assert_eq!(gql_error::error::format(&error), "\nGQLClient Error: nothing\n");
}

#[test]
fn default_summary_is_rendered_by_with_json() {
    let error = GraphQLError::with_json(vec![entry("x")]);
    assert_eq!(
        gql_error::error::format(&error),
        "\nGQLClient Error: Look at json field for more details\nMessage: x\n"
    );
}

#[test]
fn rendering_leaves_out_locations_extensions_and_path() {
    let value: serde_json::Value = serde_json::from_str(
        r#"[{"message":"m","locations":[{"line":1,"column":2}],"extensions":{"code":"C"},"path":["a",0]}]"#,
    )
    .unwrap();
    let entries = gql_error::wire::errors_from_value(&value).unwrap();
    let error = GraphQLError::with_message_and_json("s", entries);
    assert_eq!(gql_error::error::format(&error), "\nGQLClient Error: s\nMessage: m\n");
}

#[test]
fn rendering_copies_text_outside_ascii_and_empty_text() {
    let error = GraphQLError::with_message_and_json("résumé ✓", vec![entry(""), entry("ü\n")]);
    assert_eq!(
        gql_error::error::format(&error),
        "\nGQLClient Error: résumé ✓\nMessage: \nMessage: ü\n\n"
    );
}

#[test]
fn a_clone_renders_as_its_source() {
    let error = GraphQLError::with_message_and_json("s", vec![entry("one"), entry("two")]);
    let copy = error.clone();
    assert_eq!(gql_error::error::format(&copy), gql_error::error::format(&error));
    assert_eq!(copy.message(), "s");
    assert_eq!(copy.json().unwrap().len(), 2);
}

#[test]
fn to_string_is_the_rendering() {
    let transport = GraphQLError::with_text("boom");
    assert_eq!(transport.to_string(), "\nGQLClient Error: boom\n");
    let response = GraphQLError::with_json(vec![entry("a"), entry("b")]);
    assert_eq!(response.to_string(), gql_error::error::format(&response));
    assert_eq!(
        response.to_string(),
        "\nGQLClient Error: Look at json field for more details\nMessage: a\nMessage: b\n"
    );
}
