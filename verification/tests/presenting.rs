use tongues::document::Document;
use tongues::json::decode;
use tongues::presenter::{
    definition, headword, phonetic, render, DEFINITION_NOT_FOUND, PHONETIC_NOT_FOUND,
    WORD_NOT_FOUND,
};

const HELLO: &str = r#"[{"word":"hello","phonetic":"həˈləʊ","phonetics":[{"text":"həˈləʊ","audio":""}],"origin":"early 19th century","meanings":[{"partOfSpeech":"exclamation","definitions":[{"definition":"used as a greeting or to begin a phone conversation.","example":"hello there, Katie!","synonyms":[],"antonyms":[]},{"definition":"second of the first"}]},{"partOfSpeech":"noun","definitions":[{"definition":"an utterance of 'hello'; a greeting."}]}]},{"word":"other","meanings":[{"definitions":[{"definition":"not this one"}]}]}]"#;

const NOT_FOUND: &str = r#"{"title":"No Definitions Found","message":"Sorry pal, we couldn't find definitions for the word you were looking for.","resolution":"You can try the search again at later time or head to the web instead."}"#;

fn read(text: &str) -> Document {
    decode(text.as_bytes()).expect("well-formed JSON").document
}

fn text(s: &str) -> Document {
    Document::Text(s.to_string())
}

fn record(members: Vec<(&str, Document)>) -> Document {
    Document::Record(members.into_iter().map(|(k, v)| (k.to_string(), v)).collect())
}

fn entry(word: &str, definition: &str) -> Document {
    record(vec![
        ("word", text(word)),
        (
            "meanings",
            Document::List(vec![record(vec![(
                "definitions",
                Document::List(vec![record(vec![("definition", text(definition))])]),
            )])]),
        ),
    ])
}

#[test]
fn placeholders_are_the_fixed_texts() {
    assert_eq!(WORD_NOT_FOUND, "Error: word not found");
    assert_eq!(DEFINITION_NOT_FOUND, "Error: no definition found");
    assert_eq!(PHONETIC_NOT_FOUND, "phonetic information not found");
}

#[test]
fn render_single_entry_gives_word_and_first_definition() {
    let doc = Document::List(vec![entry("hello", "a greeting")]);
    assert_eq!(render(&doc, false), vec!["hello: a greeting".to_string()]);
}

#[test]
fn render_reads_a_real_answer() {
    let doc = read(HELLO);
    assert_eq!(
        render(&doc, false),
        vec!["hello: used as a greeting or to begin a phone conversation.".to_string()]
    );
}

#[test]
fn render_with_phonetic_adds_a_second_line() {
    let doc = read(HELLO);
    assert_eq!(
        render(&doc, true),
        vec![
            "hello: used as a greeting or to begin a phone conversation.".to_string(),
            "Phonetic: h\u{259}\u{2c8}l\u{259}\u{28a}".to_string(),
        ]
    );
}

#[test]
fn render_empty_list_gives_both_placeholders() {
    let doc = Document::List(vec![]);
    assert_eq!(
        render(&doc, false),
        vec!["Error: word not found: Error: no definition found".to_string()]
    );
    assert_eq!(render(&read("[]"), false), render(&doc, false));
}

#[test]
fn render_empty_list_with_phonetic_gives_all_three_placeholders() {
    assert_eq!(
        render(&Document::List(vec![]), true),
        vec![
            "Error: word not found: Error: no definition found".to_string(),
            "Phonetic: phonetic information not found".to_string(),
        ]
    );
}

#[test]
fn render_answer_for_an_unknown_word_gives_placeholders() {
    let doc = read(NOT_FOUND);
    assert_eq!(
        render(&doc, true),
        vec![
            "Error: word not found: Error: no definition found".to_string(),
            "Phonetic: phonetic information not found".to_string(),
        ]
    );
}

#[test]
fn render_defaults_each_place_on_its_own() {
    let no_definition = read(r#"[{"word":"hello","meanings":[]}]"#);
    assert_eq!(render(&no_definition, false), vec!["hello: Error: no definition found".to_string()]);
    let no_word = read(r#"[{"meanings":[{"definitions":[{"definition":"a greeting"}]}]}]"#);
    assert_eq!(render(&no_word, false), vec!["Error: word not found: a greeting".to_string()]);
    let no_phonetic = Document::List(vec![entry("hello", "a greeting")]);
    assert_eq!(
        render(&no_phonetic, true),
        vec![
            "hello: a greeting".to_string(),
            "Phonetic: phonetic information not found".to_string(),
        ]
    );
}

#[test]
fn render_takes_a_place_of_another_kind_as_absent() {
    let doc = read(r#"[{"word":7,"phonetic":null,"meanings":[{"definitions":[{"definition":["a"]}]}]}]"#);
    assert_eq!(
        render(&doc, true),
        vec![
            "Error: word not found: Error: no definition found".to_string(),
            "Phonetic: phonetic information not found".to_string(),
        ]
    );
}

#[test]
fn render_shows_empty_texts_as_they_are() {
    let doc = Document::List(vec![record(vec![
        ("word", text("")),
        ("phonetic", text("")),
        (
            "meanings",
            Document::List(vec![record(vec![(
                "definitions",
                Document::List(vec![record(vec![("definition", text(""))])]),
            )])]),
        ),
    ])]);
    assert_eq!(render(&doc, true), vec![": ".to_string(), "Phonetic: ".to_string()]);
}

#[test]
fn extraction_reads_the_first_entry_only() {
    let doc = read(HELLO);
    assert_eq!(headword(&doc), Some("hello"));
    assert_eq!(
        definition(&doc),
        Some("used as a greeting or to begin a phone conversation.")
    );
    assert_eq!(phonetic(&doc), Some("h\u{259}\u{2c8}l\u{259}\u{28a}"));
}

#[test]
fn extraction_finds_nothing_where_the_path_breaks() {
    assert_eq!(headword(&Document::Null), None);
    assert_eq!(headword(&Document::List(vec![text("hello")])), None);
    assert_eq!(definition(&read(r#"[{"meanings":{}}]"#)), None);
    assert_eq!(definition(&read(r#"[{"meanings":[{"definitions":[]}]}]"#)), None);
    assert_eq!(definition(&read(r#"[{"meanings":[{"definitions":[{}]}]}]"#)), None);
    assert_eq!(definition(&read(r#"[{"meanings":[{"definitions":[{"definition":1}]}]}]"#)), None);
    assert_eq!(phonetic(&read(r#"[{"phonetics":[{"text":"x"}]}]"#)), None);
    assert_eq!(phonetic(&read(r#"[[],{"phonetic":"x"}]"#)), None);
}
