//! What is shown for a document: the headword with its first definition, and
//! on request the phonetic spelling. A place that the document lacks is shown
//! as a fixed text; nothing here fails.

use crate::document::{view_of, Document, DocumentView};
use vstd::prelude::*;

verus! {

/// Shown in place of a headword that the document lacks.
pub const WORD_NOT_FOUND: &'static str = "Error: word not found";

/// Shown in place of a definition that the document lacks.
pub const DEFINITION_NOT_FOUND: &'static str = "Error: no definition found";

/// Shown in place of a phonetic spelling that the document lacks.
pub const PHONETIC_NOT_FOUND: &'static str = "phonetic information not found";

/// The item at `index` of a list that may be absent.
pub open spec fn element_in(found: Option<DocumentView>, index: int) -> Option<DocumentView> {
    match found {
        Some(d) => d.element(index),
        None => None,
    }
}

/// The member under `key` of a record that may be absent.
pub open spec fn member_in(found: Option<DocumentView>, key: Seq<char>) -> Option<DocumentView> {
    match found {
        Some(d) => d.member(key),
        None => None,
    }
}

/// The characters of a text that may be absent.
pub open spec fn text_in(found: Option<DocumentView>) -> Option<Seq<char>> {
    match found {
        Some(d) => d.text(),
        None => None,
    }
}

/// The headword: the text under `word` in the first entry.
pub open spec fn headword_of(doc: DocumentView) -> Option<Seq<char>> {
    text_in(member_in(doc.element(0), "word"@))
}

/// The primary definition: the text under `definition` in the first of the
/// `definitions` of the first of the `meanings` of the first entry.
pub open spec fn definition_of(doc: DocumentView) -> Option<Seq<char>> {
    let meanings = member_in(doc.element(0), "meanings"@);
    let definitions = member_in(element_in(meanings, 0), "definitions"@);
    text_in(member_in(element_in(definitions, 0), "definition"@))
}

/// The phonetic spelling: the text under `phonetic` in the first entry.
pub open spec fn phonetic_of(doc: DocumentView) -> Option<Seq<char>> {
    text_in(member_in(doc.element(0), "phonetic"@))
}

fn element_of<'a>(found: Option<&'a Document>, index: usize) -> (next: Option<&'a Document>)
    ensures
        view_of(next) == element_in(view_of(found), index as int),
{
    match found {
        Some(d) => d.element(index),
        None => None,
    }
}

fn member_of<'a>(found: Option<&'a Document>, key: &str) -> (next: Option<&'a Document>)
    ensures
        view_of(next) == member_in(view_of(found), key@),
{
    match found {
        Some(d) => d.member(key),
        None => None,
    }
}

fn text_of<'a>(found: Option<&'a Document>) -> (text: Option<&'a str>)
    ensures
        text.deep_view() == text_in(view_of(found)),
{
    match found {
        Some(d) => d.text(),
        None => None,
    }
}

/// Reads the headword of `doc`.
pub fn headword(doc: &Document) -> (found: Option<&str>)
    ensures
        found.deep_view() == headword_of(doc@),
{
    text_of(member_of(doc.element(0), "word"))
}

/// Reads the primary definition of `doc`.
pub fn definition(doc: &Document) -> (found: Option<&str>)
    ensures
        found.deep_view() == definition_of(doc@),
{
    let meanings = member_of(doc.element(0), "meanings");
    let definitions = member_of(element_of(meanings, 0), "definitions");
    text_of(member_of(element_of(definitions, 0), "definition"))
}

/// Reads the phonetic spelling of `doc`.
pub fn phonetic(doc: &Document) -> (found: Option<&str>)
    ensures
        found.deep_view() == phonetic_of(doc@),
{
    text_of(member_of(doc.element(0), "phonetic"))
}

/// `found`, or `placeholder` where nothing was found.
pub open spec fn or_placeholder(found: Option<Seq<char>>, placeholder: Seq<char>) -> Seq<char> {
    match found {
        Some(text) => text,
        None => placeholder,
    }
}

/// The first line: headword, a colon and a space, the definition.
pub open spec fn entry_line(doc: DocumentView) -> Seq<char> {
    or_placeholder(headword_of(doc), WORD_NOT_FOUND@) + ": "@ + or_placeholder(
        definition_of(doc),
        DEFINITION_NOT_FOUND@,
    )
}

/// The second line: the phonetic spelling behind its label.
pub open spec fn phonetic_line(doc: DocumentView) -> Seq<char> {
    "Phonetic: "@ + or_placeholder(phonetic_of(doc), PHONETIC_NOT_FOUND@)
}

/// The lines shown for `doc`.
pub open spec fn rendered(doc: DocumentView, show_phonetic: bool) -> Seq<Seq<char>> {
    if show_phonetic {
        seq![entry_line(doc), phonetic_line(doc)]
    } else {
        seq![entry_line(doc)]
    }
}

fn shown<'a>(found: Option<&'a str>, placeholder: &'a str) -> (text: &'a str)
    ensures
        text@ == or_placeholder(found.deep_view(), placeholder@),
{
    match found {
        Some(text) => text,
        None => placeholder,
    }
}

/// The characters of `lines`, line by line.
pub open spec fn texts_of(lines: Seq<String>) -> Seq<Seq<char>> {
    Seq::new(lines.len(), |i: int| lines[i]@)
}

/// The lines to print for `doc`: the entry line, and after it the phonetic
/// line where `show_phonetic` asks for it.
pub fn render(doc: &Document, show_phonetic: bool) -> (lines: Vec<String>)
    ensures
        texts_of(lines@) == rendered(doc@, show_phonetic),
        lines@.len() == rendered(doc@, show_phonetic).len(),
{
    let mut lines: Vec<String> = Vec::new();
    let entry = shown(headword(doc), WORD_NOT_FOUND).to_owned().concat(": ").concat(
        shown(definition(doc), DEFINITION_NOT_FOUND),
    );
    lines.push(entry);
    if show_phonetic {
        let spelling = "Phonetic: ".to_owned().concat(shown(phonetic(doc), PHONETIC_NOT_FOUND));
        lines.push(spelling);
    }
    assert(texts_of(lines@) =~= rendered(doc@, show_phonetic));
    lines
}

/// Whether `doc` is a list of one entry that holds `word` as its headword and
/// `definition` as the first definition of its first meaning.
pub open spec fn single_entry(doc: DocumentView, word: Seq<char>, definition: Seq<char>) -> bool {
    &&& doc matches DocumentView::List(entries)
    &&& entries.len() == 1
    &&& entries[0].member("word"@) == Some(DocumentView::Text(word))
    &&& entries[0].member("meanings"@) matches Some(DocumentView::List(meanings))
    &&& meanings.len() >= 1
    &&& meanings[0].member("definitions"@) matches Some(DocumentView::List(definitions))
    &&& definitions.len() >= 1
    &&& definitions[0].member("definition"@) == Some(DocumentView::Text(definition))
}

/// For a response of one well-formed entry the first line is the headword, a
/// colon and a space, and the first definition of the first meaning, and
/// without the phonetic line nothing else is shown.
pub proof fn law_single_entry_line(
    doc: DocumentView,
    word: Seq<char>,
    definition: Seq<char>,
    show_phonetic: bool,
)
    requires
        single_entry(doc, word, definition),
    ensures
        rendered(doc, show_phonetic)[0] == word + ": "@ + definition,
        !show_phonetic ==> rendered(doc, show_phonetic) == seq![word + ": "@ + definition],
{
}

/// For a response that is an empty list both placeholders are shown.
pub proof fn law_empty_response(show_phonetic: bool)
    ensures
        rendered(DocumentView::List(Seq::empty()), show_phonetic)[0]
            == "Error: word not found: Error: no definition found"@,
{
    reveal_strlit("Error: word not found");
    reveal_strlit("Error: no definition found");
    reveal_strlit(": ");
    reveal_strlit("Error: word not found: Error: no definition found");
    assert(entry_line(DocumentView::List(Seq::empty()))
        =~= "Error: word not found: Error: no definition found"@);
}

} // verus!
