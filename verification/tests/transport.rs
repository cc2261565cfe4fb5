use gql_error::error::GraphQLError;

fn builder_error() -> reqwest::Error {
    reqwest::Client::builder().user_agent("not\na header").build().unwrap_err()
}

#[test]
fn transport_failure_becomes_an_error_of_its_description() {
    let failure = builder_error();
    let description = failure.to_string();
    let error = GraphQLError::from(failure);
    assert_eq!(error.message(), description);
    assert_eq!(error.message(), "builder error");
    assert!(error.json().is_none());
}

#[test]
fn transport_failure_matches_nothing() {
    let error: GraphQLError = builder_error().into();
    assert!(!error.contains_error_message("builder error"));
    assert!(!error.contains_error_message(""));
    assert!(!error.contains_error_code("builder error"));
    assert!(!error.contains_error_code(""));
}

#[test]
fn transport_failure_renders_as_one_line() {
    let error = GraphQLError::from(builder_error());
    assert_eq!(gql_error::error::format(&error), "\nGQLClient Error: builder error\n");
}

#[test]
fn question_mark_converts_a_transport_failure() {
    fn run() -> Result<(), GraphQLError> {
        reqwest::Client::builder().user_agent("not\na header").build()?;
        Ok(())
    }
    let error = match run() {
        Err(error) => error,
        Ok(()) => panic!("the builder took a header with a line break"),
    };
    assert_eq!(error.message(), "builder error");
}
