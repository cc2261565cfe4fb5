//! The error value and the entries it carries.

use crate::json::{clone_object, members_of, text_member};
use crate::model::{
    message_lines, ErrorMessageView, GraphQLErrorView, LocationView, PathParamView, DEFAULT_MESSAGE,
};
use crate::text::str_eq;
use vstd::prelude::*;
use vstd::string::StringExecFns;

verus! {

/// What went wrong with a request: the transport failed, or the response
/// carried GraphQL errors.
pub struct GraphQLError {
    message: String,
    json: Option<Vec<GraphQLErrorMessage>>,
}

/// One entry of the `errors` list of a GraphQL response.
#[derive(Debug)]
pub struct GraphQLErrorMessage {
    message: String,
    locations: Option<Vec<GraphQLErrorLocation>>,
    extensions: Option<serde_json::Map<String, serde_json::Value>>,
    path: Option<Vec<GraphQLErrorPathParam>>,
}

/// A position in the query document.
#[derive(Debug)]
pub struct GraphQLErrorLocation {
    line: u32,
    column: u32,
}

/// One step of a path into the response.
#[derive(Debug)]
pub enum GraphQLErrorPathParam {
    String(String),
    Number(u32),
}

impl View for GraphQLErrorLocation {
    type V = LocationView;

    closed spec fn view(&self) -> LocationView {
        LocationView { line: self.line, column: self.column }
    }
}

impl View for GraphQLErrorPathParam {
    type V = PathParamView;

    open spec fn view(&self) -> PathParamView {
        match self {
            GraphQLErrorPathParam::String(name) => PathParamView::String(name@),
            GraphQLErrorPathParam::Number(index) => PathParamView::Number(*index),
        }
    }
}

/// The positions that a list of locations stands for.
pub open spec fn locations_view(locations: Option<Vec<GraphQLErrorLocation>>) -> Option<
    Seq<LocationView>,
> {
    match locations {
        Some(list) => Some(list@.map_values(|l: GraphQLErrorLocation| l@)),
        None => None,
    }
}

/// The steps that a path stands for.
pub open spec fn path_view(path: Option<Vec<GraphQLErrorPathParam>>) -> Option<Seq<PathParamView>> {
    match path {
        Some(list) => Some(list@.map_values(|p: GraphQLErrorPathParam| p@)),
        None => None,
    }
}

/// The members that an extension map stands for.
pub open spec fn extensions_view(
    extensions: Option<serde_json::Map<String, serde_json::Value>>,
) -> Option<Map<Seq<char>, crate::json::Json>> {
    match extensions {
        Some(object) => Some(members_of(object)),
        None => None,
    }
}

impl View for GraphQLErrorMessage {
    type V = ErrorMessageView;

    closed spec fn view(&self) -> ErrorMessageView {
        ErrorMessageView {
            message: self.message@,
            locations: locations_view(self.locations),
            extensions: extensions_view(self.extensions),
            path: path_view(self.path),
        }
    }
}

/// The entries that a list of entries stands for.
pub open spec fn entries_view(entries: Seq<GraphQLErrorMessage>) -> Seq<ErrorMessageView> {
    entries.map_values(|e: GraphQLErrorMessage| e@)
}

/// The entries that an optional list of entries stands for.
pub open spec fn json_view(json: Option<Vec<GraphQLErrorMessage>>) -> Option<Seq<ErrorMessageView>> {
    match json {
        Some(entries) => Some(entries_view(entries@)),
        None => None,
    }
}

impl View for GraphQLError {
    type V = GraphQLErrorView;

    closed spec fn view(&self) -> GraphQLErrorView {
        GraphQLErrorView { message: self.message@, json: json_view(self.json) }
    }
}

impl GraphQLErrorLocation {
    /// The position at a line and a column.
    pub fn new(line: u32, column: u32) -> (location: Self)
        ensures
            location@ == (LocationView { line, column }),
    {
        GraphQLErrorLocation { line, column }
    }

    /// The line of the position.
    pub fn line(&self) -> (line: u32)
        ensures
            line == self@.line,
    {
        self.line
    }

    /// The column of the position.
    pub fn column(&self) -> (column: u32)
        ensures
            column == self@.column,
    {
        self.column
    }
}

impl Clone for GraphQLErrorLocation {
    fn clone(&self) -> (copy: Self)
        ensures
            copy@ == self@,
    {
        GraphQLErrorLocation { line: self.line, column: self.column }
    }
}

impl Clone for GraphQLErrorPathParam {
    fn clone(&self) -> (copy: Self)
        ensures
            copy@ == self@,
    {
        match self {
            GraphQLErrorPathParam::String(name) => GraphQLErrorPathParam::String(name.clone()),
            GraphQLErrorPathParam::Number(index) => GraphQLErrorPathParam::Number(*index),
        }
    }
}

impl GraphQLErrorMessage {
    /// The entry with these parts.
    pub fn new(
        message: String,
        locations: Option<Vec<GraphQLErrorLocation>>,
        extensions: Option<serde_json::Map<String, serde_json::Value>>,
        path: Option<Vec<GraphQLErrorPathParam>>,
    ) -> (entry: Self)
        ensures
            entry@ == (ErrorMessageView {
                message: message@,
                locations: locations_view(locations),
                extensions: extensions_view(extensions),
                path: path_view(path),
            }),
    {
        GraphQLErrorMessage { message, locations, extensions, path }
    }

    /// The entry's message.
    pub fn message(&self) -> (message: &str)
        ensures
            message@ == self@.message,
    {
        self.message.as_str()
    }

    /// The positions in the query document that the entry points at.
    pub fn locations(&self) -> (locations: &Option<Vec<GraphQLErrorLocation>>)
        ensures
            locations_view(*locations) == self@.locations,
    {
        &self.locations
    }

    /// The metadata that the server attached to the entry.
    pub fn extensions(&self) -> (extensions: &Option<serde_json::Map<String, serde_json::Value>>)
        ensures
            extensions_view(*extensions) == self@.extensions,
    {
        &self.extensions
    }

    /// The path to the field of the response that the entry is about.
    pub fn path(&self) -> (path: &Option<Vec<GraphQLErrorPathParam>>)
        ensures
            path_view(*path) == self@.path,
    {
        &self.path
    }

    /// The entry's code: the member `code` of its extensions, where that is
    /// a JSON string.
    pub fn code(&self) -> (code: Option<&str>)
        ensures
            match code {
                Some(text) => self@.code() == Some(text@),
                None => self@.code() is None,
            },
    {
        match &self.extensions {
            Some(object) => text_member(object, "code"),
            None => None,
        }
    }
}

impl Clone for GraphQLErrorMessage {
    fn clone(&self) -> (copy: Self)
        ensures
            copy@ == self@,
    {
        let locations = self.locations.clone();
        let path = self.path.clone();
        let extensions = match &self.extensions {
            Some(object) => Some(clone_object(object)),
            None => None,
        };
        proof {
            if self.locations is Some {
                assert(locations_view(locations)->0 =~= locations_view(self.locations)->0);
            }
            if self.path is Some {
                assert(path_view(path)->0 =~= path_view(self.path)->0);
            }
        }
        GraphQLErrorMessage { message: self.message.clone(), locations, extensions, path }
    }
}

impl GraphQLError {
    /// Whether some entry of the error has exactly this message. An error of
    /// the transport has no entries, so the answer is `false`.
    pub fn contains_error_message(&self, message: &str) -> (found: bool)
        ensures
            found == self@.contains_error_message(message@),
    {
        match &self.json {
            None => false,
            Some(errors) => {
                let mut i: usize = 0;
                while i < errors.len()
                    invariant
                        self.json == Some(*errors),
                        i <= errors.len(),
                        forall|k: int| 0 <= k < i ==> errors@[k]@.message != message@,
                    decreases errors.len() - i,
                {
                    if str_eq(errors[i].message.as_str(), message) {
                        assert(entries_view(errors@)[i as int].message == message@);
                        return true;
                    }
                    i += 1;
                }
                false
            },
        }
    }

    /// Whether some entry of the error has exactly this code. An entry whose
    /// `code` is no JSON string matches no code.
    pub fn contains_error_code(&self, code: &str) -> (found: bool)
        ensures
            found == self@.contains_error_code(code@),
    {
        match &self.json {
            None => false,
            Some(errors) => {
                let mut i: usize = 0;
                while i < errors.len()
                    invariant
                        self.json == Some(*errors),
                        i <= errors.len(),
                        forall|k: int| 0 <= k < i ==> errors@[k]@.code() != Some(code@),
                    decreases errors.len() - i,
                {
                    match errors[i].code() {
                        Some(text) => {
                            if str_eq(text, code) {
                                assert(entries_view(errors@)[i as int].code() == Some(code@));
                                return true;
                            }
                        },
                        None => {},
                    }
                    i += 1;
                }
                false
            },
        }
    }

    /// The error of a failed transport: a summary and no entries.
    pub fn with_text(message: &str) -> (error: Self)
        ensures
            error@ == GraphQLErrorView::with_text(message@),
    {
        GraphQLError { message: message.to_owned(), json: None }
    }

    /// The error of a response: a summary and the entries of the response.
    pub fn with_message_and_json(message: &str, json: Vec<GraphQLErrorMessage>) -> (error: Self)
        ensures
            error@ == GraphQLErrorView::with_message_and_json(message@, entries_view(json@)),
    {
        GraphQLError { message: message.to_owned(), json: Some(json) }
    }

    /// The error of a response, with the default summary.
    pub fn with_json(json: Vec<GraphQLErrorMessage>) -> (error: Self)
        ensures
            error@ == GraphQLErrorView::with_json(entries_view(json@)),
    {
        Self::with_message_and_json(DEFAULT_MESSAGE, json)
    }

    /// The text that stands for the error: what [`format`] gives for it.
    pub fn to_string(&self) -> (text: String)
        ensures
            text@ == self@.rendering(),
    {
        self::format(self)
    }

    /// The summary of the error.
    pub fn message(&self) -> (message: &str)
        ensures
            message@ == self@.message,
    {
        self.message.as_str()
    }

    /// A copy of the entries of the error, `None` for an error of the
    /// transport.
    pub fn json(&self) -> (json: Option<Vec<GraphQLErrorMessage>>)
        ensures
            json_view(json) == self@.json,
    {
        self.json.clone()
    }
}

impl Clone for GraphQLError {
    fn clone(&self) -> (copy: Self)
        ensures
            copy@ == self@,
    {
        GraphQLError { message: self.message.clone(), json: self.json() }
    }
}

/// The text that stands for an error, as a person reads it: an empty line,
/// `GQLClient Error: ` with the summary, then `Message: ` with the message of
/// each entry, each on a line of its own.
pub fn format(err: &GraphQLError) -> (text: String)
    ensures
        text@ == err@.rendering(),
{
    let mut text = String::from_str("\nGQLClient Error: ");
    text.append(err.message.as_str());
    text.append("\n");
    match &err.json {
        None => {},
        Some(errors) => {
            let mut i: usize = 0;
            while i < errors.len()
                invariant
                    i <= errors.len(),
                    text@ == err@.headline() + message_lines(entries_view(errors@).take(i as int)),
                    err.json == Some(*errors),
                decreases errors.len() - i,
            {
                text.append("Message: ");
                text.append(errors[i].message.as_str());
                text.append("\n");
                proof {
                    let shown = entries_view(errors@).take(i + 1);
                    assert(shown.drop_last() == entries_view(errors@).take(i as int));
                }
                i += 1;
            }
            proof {
                assert(entries_view(errors@).take(i as int) == entries_view(errors@));
            }
        },
    }
    text
}

} // verus!
