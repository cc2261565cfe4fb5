//! The mathematical model of an error: what an error value is, apart from
//! how it is stored, and what its predicates and its rendering are over that.

use crate::json::{member_text, Json};
use vstd::prelude::*;

verus! {

/// A position in the query document.
pub struct LocationView {
    pub line: u32,
    pub column: u32,
}

/// One step of a path into the response: a field's name or an index into a
/// list.
pub enum PathParamView {
    String(Seq<char>),
    Number(u32),
}

/// One entry of the error list of a GraphQL response.
pub struct ErrorMessageView {
    pub message: Seq<char>,
    pub locations: Option<Seq<LocationView>>,
    pub extensions: Option<Map<Seq<char>, Json>>,
    pub path: Option<Seq<PathParamView>>,
}

/// An error: a summary, and the entries of the response where there was one.
///
/// `json` is `None` for a failure of the transport and `Some` for a failure
/// that a GraphQL response reported. `Some` of no entries is a value of its
/// own, distinct from `None`.
pub struct GraphQLErrorView {
    pub message: Seq<char>,
    pub json: Option<Seq<ErrorMessageView>>,
}

/// The summary of an error that was built from entries alone.
pub const DEFAULT_MESSAGE: &'static str = "Look at json field for more details";

/// The characters of [`DEFAULT_MESSAGE`].
pub open spec fn default_message() -> Seq<char> {
    DEFAULT_MESSAGE@
}

impl ErrorMessageView {
    /// The entry's code: the text of the member `code` of its extensions.
    /// An entry without extensions, without that member, or with a `code`
    /// that is no JSON string has no code.
    pub open spec fn code(self) -> Option<Seq<char>> {
        match self.extensions {
            Some(members) => member_text(members, "code"@),
            None => None,
        }
    }

    /// The line that the rendering of an error gives to this entry.
    pub open spec fn message_line(self) -> Seq<char> {
        "Message: "@ + self.message + "\n"@
    }
}

/// The lines of the entries, one after the other, in the entries' order.
pub open spec fn message_lines(entries: Seq<ErrorMessageView>) -> Seq<char>
    decreases entries.len(),
{
    if entries.len() == 0 {
        Seq::empty()
    } else {
        message_lines(entries.drop_last()) + entries.last().message_line()
    }
}

impl GraphQLErrorView {
    /// The error of a failed transport.
    pub open spec fn with_text(message: Seq<char>) -> Self {
        GraphQLErrorView { message, json: None }
    }

    /// The error of a response, with a summary of the caller's.
    pub open spec fn with_message_and_json(message: Seq<char>, json: Seq<ErrorMessageView>) -> Self {
        GraphQLErrorView { message, json: Some(json) }
    }

    /// The error of a response, with the default summary.
    pub open spec fn with_json(json: Seq<ErrorMessageView>) -> Self {
        Self::with_message_and_json(default_message(), json)
    }

    /// Whether some entry has exactly this message.
    pub open spec fn contains_error_message(self, message: Seq<char>) -> bool {
        self.json matches Some(entries) && exists|i: int|
            0 <= i < entries.len() && (#[trigger] entries[i]).message == message
    }

    /// Whether some entry has exactly this code.
    pub open spec fn contains_error_code(self, code: Seq<char>) -> bool {
        self.json matches Some(entries) && exists|i: int|
            0 <= i < entries.len() && (#[trigger] entries[i]).code() == Some(code)
    }

    /// The first line of the rendering: an empty line, then the summary.
    pub open spec fn headline(self) -> Seq<char> {
        "\nGQLClient Error: "@ + self.message + "\n"@
    }

    /// The text that stands for the error: the headline, then one line for
    /// each entry. Locations, extensions and paths are not rendered.
    pub open spec fn rendering(self) -> Seq<char> {
        match self.json {
            None => self.headline(),
            Some(entries) => self.headline() + message_lines(entries),
        }
    }
}

} // verus!
