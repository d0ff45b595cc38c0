//! The answer of the dictionary service as a tree of plain values, with the
//! three ways in which it is read: the text that it holds, an item by its
//! index, a member by its key.

use vstd::prelude::*;

verus! {

/// A JSON document.
#[derive(Debug, PartialEq, Eq)]
pub enum Document {
    Null,
    Bool(bool),
    /// A number, as the text in which it is written.
    Number(String),
    Text(String),
    List(Vec<Document>),
    /// The members in the order in which they are held. Where a key occurs
    /// more than once, the first occurrence is the one that is found.
    Record(Vec<(String, Document)>),
}

/// The mathematical value of a [`Document`].
pub enum DocumentView {
    Null,
    Bool(bool),
    Number(Seq<char>),
    Text(Seq<char>),
    List(Seq<DocumentView>),
    Record(Seq<(Seq<char>, DocumentView)>),
}

/// The value of `document`, level by level. A sequence is built from a
/// function on all indices; only those within the vector are ever read.
pub open spec fn value_of(document: Document) -> DocumentView
    decreases document,
{
    match document {
        Document::Null => DocumentView::Null,
        Document::Bool(b) => DocumentView::Bool(b),
        Document::Number(n) => DocumentView::Number(n@),
        Document::Text(s) => DocumentView::Text(s@),
        Document::List(items) => DocumentView::List(
            Seq::new(
                items@.len(),
                |i: int|
                    if 0 <= i < items@.len() {
                        value_of(items@[i])
                    } else {
                        DocumentView::Null
                    },
            ),
        ),
        Document::Record(fields) => DocumentView::Record(
            Seq::new(
                fields@.len(),
                |i: int|
                    if 0 <= i < fields@.len() {
                        (fields@[i].0@, value_of(fields@[i].1))
                    } else {
                        (Seq::empty(), DocumentView::Null)
                    },
            ),
        ),
    }
}

impl View for Document {
    type V = DocumentView;

    open spec fn view(&self) -> DocumentView {
        value_of(*self)
    }
}

/// The value of the first member of `fields` whose key is `key`.
pub open spec fn first_with_key(
    fields: Seq<(Seq<char>, DocumentView)>,
    key: Seq<char>,
) -> Option<DocumentView>
    decreases fields.len(),
{
    if fields.len() == 0 {
        None
    } else if fields[0].0 == key {
        Some(fields[0].1)
    } else {
        first_with_key(fields.drop_first(), key)
    }
}

impl DocumentView {
    /// The characters of a text; nothing for any other document.
    pub open spec fn text(self) -> Option<Seq<char>> {
        match self {
            DocumentView::Text(s) => Some(s),
            _ => None,
        }
    }

    /// The item at `index` of a list; nothing past its end or for any other
    /// document.
    pub open spec fn element(self, index: int) -> Option<DocumentView> {
        match self {
            DocumentView::List(items) => if 0 <= index < items.len() {
                Some(items[index])
            } else {
                None
            },
            _ => None,
        }
    }

    /// The member of a record under `key`; nothing where the record has no
    /// such key or for any other document.
    pub open spec fn member(self, key: Seq<char>) -> Option<DocumentView> {
        match self {
            DocumentView::Record(fields) => first_with_key(fields, key),
            _ => None,
        }
    }
}

/// The view of a document that may be absent.
pub open spec fn view_of(found: Option<&Document>) -> Option<DocumentView> {
    match found {
        Some(d) => Some(d@),
        None => None,
    }
}

impl Document {
    /// The characters of a text.
    pub fn text(&self) -> (found: Option<&str>)
        ensures
            found.deep_view() == self@.text(),
    {
        match self {
            Document::Text(s) => Some(s.as_str()),
            _ => None,
        }
    }

    /// The item at `index` of a list.
    pub fn element(&self, index: usize) -> (found: Option<&Document>)
        ensures
            view_of(found) == self@.element(index as int),
    {
        match self {
            Document::List(items) => if index < items.len() {
                Some(&items[index])
            } else {
                None
            },
            _ => None,
        }
    }

    /// The member of a record under `key`.
    pub fn member(&self, key: &str) -> (found: Option<&Document>)
        ensures
            view_of(found) == self@.member(key@),
    {
        match self {
            Document::Record(fields) => {
                let wanted = key.to_owned();
                let ghost all = self@->Record_0;
                let mut i: usize = 0;
                assert(all.skip(0) == all);
                while i < fields.len()
                    invariant
                        i <= fields.len(),
                        wanted@ == key@,
                        self@ == DocumentView::Record(all),
                        all.len() == fields@.len(),
                        forall|j: int|
                            0 <= j < all.len() ==> all[j] == (
                                #[trigger] fields@[j].0@,
                                fields@[j].1@,
                            ),
                        first_with_key(all, key@) == first_with_key(all.skip(i as int), key@),
                    decreases fields.len() - i,
                {
                    assert(all.skip(i as int)[0] == all[i as int]);
                    assert(all.skip(i as int).drop_first() == all.skip(i + 1));
                    if fields[i].0 == wanted {
                        return Some(&fields[i].1);
                    }
                    i += 1;
                }
                None
            },
            _ => None,
        }
    }
}

} // verus!

