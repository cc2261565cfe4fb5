//! The wire shape of GraphQL errors: which JSON values are entries of an
//! error list, and the entries that they decode to.
//!
//! An error list is a JSON array of objects. Each object has the member
//! `message`, a string, and may have `locations`, an array of objects with the
//! whole numbers `line` and `column`; `extensions`, an object; and `path`, an
//! array of strings and whole numbers. A member that may be missing may also
//! be `null`. Members of other names are passed over.

use crate::error::{
    extensions_view, json_view, locations_view, path_view, GraphQLErrorLocation,
    GraphQLErrorMessage, GraphQLErrorPathParam,
};
use crate::json::{
    clone_object, json_of, json_seq, member, member_text, members_of, text_member, Json,
};
use crate::model::{ErrorMessageView, LocationView, PathParamView};
use vstd::prelude::*;

verus! {

/// The step that a JSON value stands for: a string is a field's name, a whole
/// number from 0 to `u32::MAX` an index, and nothing else is a step.
pub open spec fn path_param_of(json: Json) -> Option<PathParamView> {
    match json {
        Json::Text(name) => Some(PathParamView::String(name)),
        Json::Unsigned(index) => if index <= u32::MAX {
            Some(PathParamView::Number(index as u32))
        } else {
            None
        },
        _ => None,
    }
}

/// The number stored under a key, where the member is there and is a whole
/// number from 0 to `u32::MAX`.
pub open spec fn member_u32(members: Map<Seq<char>, Json>, key: Seq<char>) -> Option<u32> {
    if members.contains_key(key) {
        match members[key] {
            Json::Unsigned(n) => if n <= u32::MAX {
                Some(n as u32)
            } else {
                None
            },
            _ => None,
        }
    } else {
        None
    }
}

/// The position that a JSON value stands for: an object with the numbers
/// `line` and `column`.
pub open spec fn location_of(json: Json) -> Option<LocationView> {
    match json {
        Json::Object(members) => match (member_u32(members, "line"@), member_u32(
            members,
            "column"@,
        )) {
            (Some(line), Some(column)) => Some(LocationView { line, column }),
            _ => None,
        },
        _ => None,
    }
}

/// The path that a list of JSON values stands for, where each of them is a
/// step.
pub open spec fn path_of(items: Seq<Json>) -> Option<Seq<PathParamView>> {
    if forall|i: int| 0 <= i < items.len() ==> path_param_of(#[trigger] items[i]) is Some {
        Some(Seq::new(items.len(), |i: int| path_param_of(items[i])->0))
    } else {
        None
    }
}

/// The positions that a list of JSON values stands for, where each of them is
/// a position.
pub open spec fn locations_of(items: Seq<Json>) -> Option<Seq<LocationView>> {
    if forall|i: int| 0 <= i < items.len() ==> location_of(#[trigger] items[i]) is Some {
        Some(Seq::new(items.len(), |i: int| location_of(items[i])->0))
    } else {
        None
    }
}

/// The member `path` of an entry: `Some(None)` where it is missing or `null`,
/// `Some(Some(..))` where it is an array of steps, `None` where it is
/// anything else.
pub open spec fn member_path(members: Map<Seq<char>, Json>) -> Option<Option<Seq<PathParamView>>> {
    if !members.contains_key("path"@) {
        Some(None)
    } else {
        match members["path"@] {
            Json::Null => Some(None),
            Json::Array(items) => match path_of(items) {
                Some(path) => Some(Some(path)),
                None => None,
            },
            _ => None,
        }
    }
}

/// The member `locations` of an entry: `Some(None)` where it is missing or
/// `null`, `Some(Some(..))` where it is an array of positions, `None` where
/// it is anything else.
pub open spec fn member_locations(members: Map<Seq<char>, Json>) -> Option<
    Option<Seq<LocationView>>,
> {
    if !members.contains_key("locations"@) {
        Some(None)
    } else {
        match members["locations"@] {
            Json::Null => Some(None),
            Json::Array(items) => match locations_of(items) {
                Some(locations) => Some(Some(locations)),
                None => None,
            },
            _ => None,
        }
    }
}

/// The member `extensions` of an entry: `Some(None)` where it is missing or
/// `null`, `Some(Some(..))` where it is an object, `None` where it is
/// anything else.
pub open spec fn member_extensions(members: Map<Seq<char>, Json>) -> Option<
    Option<Map<Seq<char>, Json>>,
> {
    if !members.contains_key("extensions"@) {
        Some(None)
    } else {
        match members["extensions"@] {
            Json::Null => Some(None),
            Json::Object(extensions) => Some(Some(extensions)),
            _ => None,
        }
    }
}

/// The entry that a JSON value stands for: an object whose `message` is a
/// string and whose other members, where it has them, are of their shapes.
pub open spec fn entry_of(json: Json) -> Option<ErrorMessageView> {
    match json {
        Json::Object(members) => match (
            member_text(members, "message"@),
            member_locations(members),
            member_extensions(members),
            member_path(members),
        ) {
            (Some(message), Some(locations), Some(extensions), Some(path)) => Some(
                ErrorMessageView { message, locations, extensions, path },
            ),
            _ => None,
        },
        _ => None,
    }
}

/// The entries that a JSON value stands for: an array, each element of which
/// is an entry.
pub open spec fn entries_of(json: Json) -> Option<Seq<ErrorMessageView>> {
    match json {
        Json::Array(items) => if forall|i: int|
            0 <= i < items.len() ==> entry_of(#[trigger] items[i]) is Some {
            Some(Seq::new(items.len(), |i: int| entry_of(items[i])->0))
        } else {
            None
        },
        _ => None,
    }
}

impl GraphQLErrorPathParam {
    /// Decodes one step of a path. A string is a field's name; a value that
    /// is no string is an index if it is a whole number that fits, and
    /// otherwise no step.
    pub fn from_value(value: &serde_json::Value) -> (step: Option<Self>)
        ensures
            match step {
                Some(step) => path_param_of(json_of(*value)) == Some(step@),
                None => path_param_of(json_of(*value)) is None,
            },
    {
        match value.as_str() {
            Some(name) => Some(GraphQLErrorPathParam::String(name.to_owned())),
            None => match value.as_u64() {
                Some(index) => if index <= u32::MAX as u64 {
                    Some(GraphQLErrorPathParam::Number(index as u32))
                } else {
                    None
                },
                None => None,
            },
        }
    }
}

/// The number stored under a key, where the member is there and is a whole
/// number that fits.
fn u32_member(object: &serde_json::Map<String, serde_json::Value>, key: &str) -> (number: Option<
    u32,
>)
    ensures
        number == member_u32(members_of(*object), key@),
{
    match member(object, key) {
        Some(value) => match value.as_u64() {
            Some(n) => if n <= u32::MAX as u64 {
                Some(n as u32)
            } else {
                None
            },
            None => None,
        },
        None => None,
    }
}

impl GraphQLErrorLocation {
    /// Decodes one position.
    pub fn from_value(value: &serde_json::Value) -> (location: Option<Self>)
        ensures
            match location {
                Some(location) => location_of(json_of(*value)) == Some(location@),
                None => location_of(json_of(*value)) is None,
            },
    {
        match value.as_object() {
            Some(object) => match (u32_member(object, "line"), u32_member(object, "column")) {
                (Some(line), Some(column)) => Some(GraphQLErrorLocation::new(line, column)),
                _ => None,
            },
            None => None,
        }
    }
}

/// Decodes the steps of a path, all or none.
fn path_from_values(values: &Vec<serde_json::Value>) -> (path: Option<Vec<GraphQLErrorPathParam>>)
    ensures
        path_view(path) == path_of(json_seq(values@)),
{
    let mut path: Vec<GraphQLErrorPathParam> = Vec::new();
    let mut i: usize = 0;
    while i < values.len()
        invariant
            i <= values.len(),
            path@.len() == i,
            forall|k: int|
                0 <= k < i ==> path_param_of(#[trigger] json_seq(values@)[k]) == Some(path@[k]@),
        decreases values.len() - i,
    {
        match GraphQLErrorPathParam::from_value(&values[i]) {
            Some(step) => {
                path.push(step);
            },
            None => {
                assert(path_param_of(json_seq(values@)[i as int]) is None);
                return None;
            },
        }
        i += 1;
    }
    Some(path)
}

/// Decodes the positions of a list, all or none.
fn locations_from_values(values: &Vec<serde_json::Value>) -> (locations: Option<
    Vec<GraphQLErrorLocation>,
>)
    ensures
        locations_view(locations) == locations_of(json_seq(values@)),
{
    let mut locations: Vec<GraphQLErrorLocation> = Vec::new();
    let mut i: usize = 0;
    while i < values.len()
        invariant
            i <= values.len(),
            locations@.len() == i,
            forall|k: int|
                0 <= k < i ==> location_of(#[trigger] json_seq(values@)[k]) == Some(
                    locations@[k]@,
                ),
        decreases values.len() - i,
    {
        match GraphQLErrorLocation::from_value(&values[i]) {
            Some(location) => {
                locations.push(location);
            },
            None => {
                assert(location_of(json_seq(values@)[i as int]) is None);
                return None;
            },
        }
        i += 1;
    }
    Some(locations)
}

/// The member `path` of an entry, decoded.
fn path_member(object: &serde_json::Map<String, serde_json::Value>) -> (path: Option<
    Option<Vec<GraphQLErrorPathParam>>,
>)
    ensures
        match path {
            Some(path) => member_path(members_of(*object)) == Some(path_view(path)),
            None => member_path(members_of(*object)) is None,
        },
{
    match member(object, "path") {
        None => Some(None),
        Some(value) => if value.is_null() {
            Some(None)
        } else {
            match value.as_array() {
                Some(values) => match path_from_values(values) {
                    Some(path) => Some(Some(path)),
                    None => None,
                },
                None => None,
            }
        },
    }
}

/// The member `locations` of an entry, decoded.
fn locations_member(object: &serde_json::Map<String, serde_json::Value>) -> (locations: Option<
    Option<Vec<GraphQLErrorLocation>>,
>)
    ensures
        match locations {
            Some(locations) => member_locations(members_of(*object)) == Some(
                locations_view(locations),
            ),
            None => member_locations(members_of(*object)) is None,
        },
{
    match member(object, "locations") {
        None => Some(None),
        Some(value) => if value.is_null() {
            Some(None)
        } else {
            match value.as_array() {
                Some(values) => match locations_from_values(values) {
                    Some(locations) => Some(Some(locations)),
                    None => None,
                },
                None => None,
            }
        },
    }
}

/// The member `extensions` of an entry, decoded.
fn extensions_member(object: &serde_json::Map<String, serde_json::Value>) -> (extensions: Option<
    Option<serde_json::Map<String, serde_json::Value>>,
>)
    ensures
        match extensions {
            Some(extensions) => member_extensions(members_of(*object)) == Some(
                extensions_view(extensions),
            ),
            None => member_extensions(members_of(*object)) is None,
        },
{
    match member(object, "extensions") {
        None => Some(None),
        Some(value) => if value.is_null() {
            Some(None)
        } else {
            match value.as_object() {
                Some(extensions) => Some(Some(clone_object(extensions))),
                None => None,
            }
        },
    }
}

impl GraphQLErrorMessage {
    /// Decodes one entry of an error list: `Some` exactly for the values of
    /// the entry's wire shape.
    pub fn from_value(value: &serde_json::Value) -> (entry: Option<Self>)
        ensures
            match entry {
                Some(entry) => entry_of(json_of(*value)) == Some(entry@),
                None => entry_of(json_of(*value)) is None,
            },
    {
        let object = match value.as_object() {
            Some(object) => object,
            None => {
                return None;
            },
        };
        let message = match text_member(object, "message") {
            Some(message) => message,
            None => {
                return None;
            },
        };
        let locations = match locations_member(object) {
            Some(locations) => locations,
            None => {
                return None;
            },
        };
        let extensions = match extensions_member(object) {
            Some(extensions) => extensions,
            None => {
                return None;
            },
        };
        let path = match path_member(object) {
            Some(path) => path,
            None => {
                return None;
            },
        };
        Some(GraphQLErrorMessage::new(message.to_owned(), locations, extensions, path))
    }
}

/// Decodes an error list: `Some` exactly for an array whose elements are all
/// entries, with the entries in the array's order.
pub fn errors_from_value(value: &serde_json::Value) -> (errors: Option<Vec<GraphQLErrorMessage>>)
    ensures
        json_view(errors) == entries_of(json_of(*value)),
{
    let values = match value.as_array() {
        Some(values) => values,
        None => {
            return None;
        },
    };
    let mut errors: Vec<GraphQLErrorMessage> = Vec::new();
    let mut i: usize = 0;
    while i < values.len()
        invariant
            json_of(*value) == Json::Array(json_seq(values@)),
            i <= values.len(),
            errors@.len() == i,
            forall|k: int|
                0 <= k < i ==> entry_of(#[trigger] json_seq(values@)[k]) == Some(errors@[k]@),
        decreases values.len() - i,
    {
        match GraphQLErrorMessage::from_value(&values[i]) {
            Some(entry) => {
                errors.push(entry);
            },
            None => {
                assert(entry_of(json_seq(values@)[i as int]) is None);
                return None;
            },
        }
        i += 1;
    }
    Some(errors)
}

} // verus!
