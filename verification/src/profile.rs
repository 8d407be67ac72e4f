//! The profile store: the one document that records the session (tabs,
//! active tab, bookmarks, history), what is read back from its file, and what
//! is written to it.
//!
//! The library never touches the file. The caller reads it and hands over
//! what it held, and writes what [`save`] returns.

use crate::json::{json_parse, json_text, JsonNode, JsonNumber, JsonValue};
use vstd::prelude::*;

verus! {

/// The view of a text that may be absent.
pub open spec fn text_view(text: Option<&str>) -> Option<Seq<char>> {
    match text {
        Some(text) => Some(text@),
        None => None,
    }
}

/// The document of a first start: one tab at `start_url` titled "New Tab",
/// that tab active, no bookmarks and no history.
pub open spec fn default_profile_node(start_url: Seq<char>) -> JsonNode {
    JsonNode::Object(
        map![
            "tabs"@ => JsonNode::Array(
                seq![
                    JsonNode::Object(
                        map![
                            "url"@ => JsonNode::Text(start_url),
                            "title"@ => JsonNode::Text("New Tab"@),
                        ],
                    ),
                ],
            ),
            "active"@ => JsonNode::Number(JsonNumber::Integer(0)),
            "bookmarks"@ => JsonNode::Array(seq![]),
            "history"@ => JsonNode::Array(seq![]),
        ],
    )
}

/// The document that the store yields for a parsed file: the document itself
/// where the file held a JSON object, the fallback where it held anything
/// else or could not be parsed.
pub open spec fn document_or(parsed: Option<JsonNode>, fallback: JsonNode) -> JsonNode {
    match parsed {
        Some(node) => if node is Object {
            node
        } else {
            fallback
        },
        None => fallback,
    }
}

/// The document that the store yields for the contents of the profile file,
/// `None` standing for a file that could not be read.
pub open spec fn loaded(contents: Option<Seq<char>>, fallback: JsonNode) -> JsonNode {
    match contents {
        Some(text) => document_or(json_parse(text), fallback),
        None => fallback,
    }
}

/// Builds the document of a first start.
pub fn default_profile(start_url: &str) -> (profile: JsonValue)
    ensures
        profile@ == default_profile_node(start_url@),
{
    let tab = JsonValue::object().with_member("url", JsonValue::string(start_url)).with_member(
        "title",
        JsonValue::string("New Tab"),
    );
    JsonValue::object().with_member("tabs", JsonValue::array().with_item(tab)).with_member(
        "active",
        JsonValue::integer(0),
    ).with_member("bookmarks", JsonValue::array()).with_member("history", JsonValue::array())
}

/// Settles on the document for a file that has been parsed: the parsed
/// document where it is a JSON object, else `fallback`.
pub fn accept(parsed: Option<JsonValue>, fallback: JsonValue) -> (document: JsonValue)
    ensures
        document@ == document_or(
            match parsed {
                Some(value) => Some(value@),
                None => None,
            },
            fallback@,
        ),
{
    match parsed {
        Some(value) => if value.is_object() {
            value
        } else {
            fallback
        },
        None => fallback,
    }
}

/// Loads the profile from what the profile file held; `contents` is `None`
/// where the file is missing or could not be read. Whatever is wrong with
/// the file, the caller gets `fallback` and no error.
pub fn load(contents: Option<&str>, fallback: JsonValue) -> (document: JsonValue)
    ensures
        document@ == loaded(text_view(contents), fallback@),
        contents is None ==> document@ == fallback@,
        contents matches Some(text) && json_parse(text@) is None ==> document@ == fallback@,
        contents matches Some(text) && json_parse(text@) matches Some(node) && !(node is Object)
            ==> document@ == fallback@,
{
    match contents {
        Some(text) => accept(JsonValue::parse(text), fallback),
        None => fallback,
    }
}

/// The text to write to the profile file for `profile`: the whole document,
/// replacing what the file held. `None` where the document cannot be
/// written as JSON; nothing is then written.
pub fn save(profile: &JsonValue) -> (contents: Option<String>)
    ensures
        match contents {
            Some(text) => json_text(profile@) == Some(text@),
            None => json_text(profile@) is None,
        },
{
    profile.to_text()
}

/// Saving and then loading gives the profile back: where `text` is what
/// [`save`] returns for a profile that is a JSON object, and the JSON reader
/// reads that text back as the same document, [`load`] on `text` yields the
/// profile, whatever the fallback.
pub proof fn lemma_load_after_save(profile: JsonNode, text: Seq<char>, fallback: JsonNode)
    ensures
        profile is Object && json_text(profile) == Some(text) && json_parse(text) == Some(profile)
            ==> loaded(Some(text), fallback) == profile,
{
}

/// A file that is missing, that is not JSON, or that holds anything but a
/// JSON object yields the fallback, exactly.
pub proof fn lemma_unusable_file_yields_fallback(contents: Option<Seq<char>>, fallback: JsonNode)
    ensures
        contents is None ==> loaded(contents, fallback) == fallback,
        contents matches Some(text) && json_parse(text) is None ==> loaded(contents, fallback)
            == fallback,
        contents matches Some(text) && json_parse(text) matches Some(node) && !(node is Object)
            ==> loaded(contents, fallback) == fallback,
{
}

} // verus!
