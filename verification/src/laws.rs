//! What holds of every error value, stated over the model.

use crate::json::Json;
use crate::model::{default_message, ErrorMessageView, GraphQLErrorView};
use vstd::prelude::*;

verus! {

/// An error of the transport has no entries, and neither predicate holds of
/// it, whatever is asked for.
pub proof fn lemma_transport_error_matches_nothing(summary: Seq<char>, asked: Seq<char>)
    ensures
        GraphQLErrorView::with_text(summary).json is None,
        !GraphQLErrorView::with_text(summary).contains_error_message(asked),
        !GraphQLErrorView::with_text(summary).contains_error_code(asked),
{
}

/// An error of a response holds a message exactly if one of the entries it
/// was built from has that message, character for character. The summary
/// plays no part.
pub proof fn lemma_message_found_iff_in_entries(
    summary: Seq<char>,
    entries: Seq<ErrorMessageView>,
    asked: Seq<char>,
)
    ensures
        GraphQLErrorView::with_message_and_json(summary, entries).contains_error_message(asked)
            <==> exists|i: int| 0 <= i < entries.len() && (#[trigger] entries[i]).message == asked,
        GraphQLErrorView::with_json(entries).contains_error_message(asked) <==> exists|i: int|
            0 <= i < entries.len() && (#[trigger] entries[i]).message == asked,
{
}

/// Whether the extensions of an entry have the member `code`, and that
/// member is a JSON string with exactly this text.
pub open spec fn carries_code(entry: ErrorMessageView, code: Seq<char>) -> bool {
    entry.extensions matches Some(members) && members.contains_key("code"@) && members["code"@]
        == Json::Text(code)
}

/// An error of a response holds a code exactly if one of the entries it was
/// built from carries that code. The summary plays no part.
pub proof fn lemma_code_found_iff_in_extensions(
    summary: Seq<char>,
    entries: Seq<ErrorMessageView>,
    asked: Seq<char>,
)
    ensures
        GraphQLErrorView::with_message_and_json(summary, entries).contains_error_code(asked)
            <==> exists|i: int| 0 <= i < entries.len() && carries_code(#[trigger] entries[i], asked),
        GraphQLErrorView::with_json(entries).contains_error_code(asked) <==> exists|i: int|
            0 <= i < entries.len() && carries_code(#[trigger] entries[i], asked),
{
    assert forall|i: int| 0 <= i < entries.len() implies (carries_code(#[trigger] entries[i], asked)
        <==> entries[i].code() == Some(asked)) by {}
}

/// An entry whose `code` is of another kind than a string has no code, so no
/// code that is asked for is found in it.
pub proof fn lemma_code_of_another_kind_is_no_code(entry: ErrorMessageView, asked: Seq<char>)
    requires
        entry.extensions matches Some(members) && members.contains_key("code"@) && !(
        members["code"@] is Text),
    ensures
        entry.code() is None,
        !carries_code(entry, asked),
{
}

/// Building an error from entries alone is building it from the default
/// summary and the entries: the entries are those of any error built from
/// them, whatever its summary.
pub proof fn lemma_with_json_is_with_default_message(
    summary: Seq<char>,
    entries: Seq<ErrorMessageView>,
)
    ensures
        GraphQLErrorView::with_json(entries) == GraphQLErrorView::with_message_and_json(
            default_message(),
            entries,
        ),
        GraphQLErrorView::with_json(entries).json == GraphQLErrorView::with_message_and_json(
            summary,
            entries,
        ).json,
        GraphQLErrorView::with_json(entries).json == Some(entries),
{
}

} // verus!
