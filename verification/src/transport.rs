//! Failures of the transport: `reqwest`'s error, taken in as an error value.

use crate::error::GraphQLError;
use crate::model::GraphQLErrorView;
use vstd::prelude::*;

verus! {

/// `reqwest::Error`, carried as an opaque value.
#[verifier::external_type_specification]
#[verifier::external_body]
pub struct ExTransportError(reqwest::Error);

/// The text that `reqwest` gives for an error.
pub uninterp spec fn description_of(error: reqwest::Error) -> Seq<char>;

/// `ToString::to_string` of a `reqwest::Error`: the error as its `Display`
/// writes it. The text depends on the error alone.
#[verifier::external_body]
fn describe(error: &reqwest::Error) -> (text: String)
    ensures
        text@ == description_of(*error),
{
    error.to_string()
}

impl vstd::std_specs::convert::FromSpecImpl<reqwest::Error> for GraphQLError {
    /// The conversion is stated by `from`'s own contract, over the view.
    open spec fn obeys_from_spec() -> bool {
        false
    }

    open spec fn from_spec(error: reqwest::Error) -> GraphQLError {
        choose|converted: GraphQLError|
            converted@ == GraphQLErrorView::with_text(description_of(error))
    }
}

impl From<reqwest::Error> for GraphQLError {
    /// The error of a failed transport: `reqwest`'s text for it as the
    /// summary, and no entries.
    fn from(error: reqwest::Error) -> (converted: GraphQLError)
        ensures
            converted@ == GraphQLErrorView::with_text(description_of(error)),
    {
        let text = describe(&error);
        GraphQLError::with_text(text.as_str())
    }
}

} // verus!
