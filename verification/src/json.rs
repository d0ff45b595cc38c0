//! Reading the bytes of an answer as JSON. The reading itself is left to
//! `serde_json`; what it yields is named here, and `decode` hands it on as
//! plain values.

use crate::document::{Document, DocumentView};
use vstd::prelude::*;

verus! {

/// `serde_json::Value`, a JSON value as `serde_json` holds it.
#[verifier::external_type_specification]
#[verifier::external_body]
pub struct ExJsonValue(serde_json::Value);

/// `serde_json::Error`, the reason for which `serde_json` gave up.
#[verifier::external_type_specification]
#[verifier::external_body]
pub struct ExJsonError(serde_json::Error);

/// The tree that a `serde_json::Value` holds.
pub uninterp spec fn tree_of(value: serde_json::Value) -> DocumentView;

/// The tree of the value that `serde_json::from_slice` reads from `body`;
/// nothing where it reports an error.
pub uninterp spec fn parsed_tree(body: Seq<u8>) -> Option<DocumentView>;

/// The text that `serde_json::to_string_pretty` writes for a value that
/// holds `tree`; nothing where it reports an error.
pub uninterp spec fn pretty_text(tree: DocumentView) -> Option<Seq<char>>;

/// Calls `serde_json::from_slice` for a `serde_json::Value`. Trusted: whether
/// it succeeds and what the value then holds depend on the bytes alone, so
/// that is `parsed_tree` of them.
#[verifier::external_body]
fn parse_value(body: &[u8]) -> (outcome: Result<serde_json::Value, serde_json::Error>)
    ensures
        match outcome {
            Ok(value) => parsed_tree(body@) == Some(tree_of(value)),
            Err(_) => parsed_tree(body@) is None,
        },
{
    serde_json::from_slice::<serde_json::Value>(body)
}

/// Copies a `serde_json::Value` into a [`Document`], variant by variant, the
/// members of an object in the order of `serde_json::Map::iter` and a number
/// as `serde_json::Number` displays it. Trusted: the copy holds what the
/// value holds, which is `tree_of` it.
#[verifier::external_body]
fn to_document(value: &serde_json::Value) -> (document: Document)
    ensures
        document@ == tree_of(*value),
{
    match value {
        serde_json::Value::Null => Document::Null,
        serde_json::Value::Bool(b) => Document::Bool(*b),
        serde_json::Value::Number(n) => Document::Number(n.to_string()),
        serde_json::Value::String(s) => Document::Text(s.clone()),
        serde_json::Value::Array(items) => Document::List(items.iter().map(to_document).collect()),
        serde_json::Value::Object(members) => Document::Record(
            members.iter().map(|(key, member)| (key.clone(), to_document(member))).collect(),
        ),
    }
}

/// Calls `serde_json::to_string_pretty` on a `serde_json::Value`. Trusted:
/// whether it succeeds and what it writes depend on what the value holds
/// alone, so that is `pretty_text` of its tree.
#[verifier::external_body]
fn to_pretty(value: &serde_json::Value) -> (outcome: Result<String, serde_json::Error>)
    ensures
        match outcome {
            Ok(text) => pretty_text(tree_of(*value)) == Some(text@),
            Err(_) => pretty_text(tree_of(*value)) is None,
        },
{
    serde_json::to_string_pretty(value)
}

/// An answer that was read: its tree, and its text as it is kept on disk.
#[derive(Debug, PartialEq, Eq)]
pub struct Decoded {
    pub document: Document,
    /// The pretty-printed text; `None` where it could not be written.
    pub pretty: Option<String>,
}

/// The mathematical value of a [`Decoded`].
pub struct DecodedView {
    pub document: DocumentView,
    pub pretty: Option<Seq<char>>,
}

impl View for Decoded {
    type V = DecodedView;

    open spec fn view(&self) -> DecodedView {
        DecodedView { document: self.document@, pretty: self.pretty.deep_view() }
    }
}

/// The view of an answer that may be absent.
pub open spec fn answer_view(answer: Option<Decoded>) -> Option<DecodedView> {
    match answer {
        Some(decoded) => Some(decoded@),
        None => None,
    }
}

/// What reading `body` as JSON yields: nothing where it is no JSON text,
/// else its tree and the pretty-printed text of that tree.
pub open spec fn decoded(body: Seq<u8>) -> Option<DecodedView> {
    match parsed_tree(body) {
        Some(tree) => Some(DecodedView { document: tree, pretty: pretty_text(tree) }),
        None => None,
    }
}

/// Reads `body` as JSON: `None` where it is malformed, else its tree and its
/// pretty-printed text.
pub fn decode(body: &[u8]) -> (answer: Option<Decoded>)
    ensures
        answer_view(answer) == decoded(body@),
{
    match parse_value(body) {
        Ok(value) => {
            let document = to_document(&value);
            let pretty = match to_pretty(&value) {
                Ok(text) => Some(text),
                Err(_) => None,
            };
            Some(Decoded { document, pretty })
        },
        Err(_) => None,
    }
}

} // verus!
