use tongues::cache::cache_location;
use tongues::document::Document;
use tongues::json::Decoded;
use tongues::presenter::render;
use tongues::resolver::{Action, Event, LookupError, Phase, Resolver};

const BODY: &[u8] = br#"[{"word":"hello","meanings":[{"definitions":[{"definition":"a greeting"}]}]}]"#;

const PRETTY: &str = "[\n  {\n    \"meanings\": [\n      {\n        \"definitions\": [\n          {\n            \"definition\": \"a greeting\"\n          }\n        ]\n      }\n    ],\n    \"word\": \"hello\"\n  }\n]";

const URL: &str = "https://api.dictionaryapi.dev/api/v2/entries/en/hello";

fn at(phase: Phase, caching: bool) -> Resolver {
    Resolver { word: "hello".to_string(), caching, phase }
}

fn fail(error: LookupError) -> Action {
    Action::Fail { error }
}

fn answer() -> Document {
    Document::List(vec![Document::Text("kept".to_string())])
}

#[test]
fn without_caching_the_service_is_asked_at_once() {
    let (resolver, action) = Resolver::begin("hello", false);
    assert_eq!(resolver, at(Phase::Fetching, false));
    assert_eq!(action, Action::Fetch { url: URL.to_string() });
}

#[test]
fn without_caching_the_answer_is_handed_out_and_nothing_is_written() {
    let (resolver, _) = Resolver::begin("hello", false);
    let (resolver, action) = resolver.step(Event::response(BODY));
    assert_eq!(resolver, at(Phase::Finished, false));
    match action {
        Action::Finish { document } => {
            assert_eq!(render(&document, false), vec!["hello: a greeting".to_string()])
        }
        other => panic!("unexpected action {:?}", other),
    }
}

#[test]
fn with_caching_the_disk_is_asked_first() {
    let (resolver, action) = Resolver::begin("hello", true);
    assert_eq!(resolver, at(Phase::Probing, true));
    assert_eq!(action, Action::ReadCache { location: cache_location("hello") });
}

#[test]
fn cache_miss_fetches_then_stores_the_pretty_answer() {
    let (resolver, _) = Resolver::begin("hello", true);
    let (resolver, action) = resolver.step(Event::CacheAbsent);
    assert_eq!(action, Action::CreateDirectory { location: cache_location("hello") });
    assert_eq!(resolver, at(Phase::Preparing, true));
    let (resolver, action) = resolver.step(Event::DirectoryReady);
    assert_eq!(action, Action::Fetch { url: URL.to_string() });
    assert_eq!(resolver, at(Phase::Fetching, true));
    let (resolver, action) = resolver.step(Event::response(BODY));
    assert_eq!(
        action,
        Action::WriteCache { location: cache_location("hello"), contents: PRETTY.to_string() }
    );
    let (resolver, action) = resolver.step(Event::Stored);
    assert_eq!(resolver, at(Phase::Finished, true));
    match action {
        Action::Finish { document } => {
            assert_eq!(render(&document, false), vec!["hello: a greeting".to_string()])
        }
        other => panic!("unexpected action {:?}", other),
    }
}

#[test]
fn cache_hit_hands_out_the_cached_document_and_asks_no_service() {
    let (resolver, first) = Resolver::begin("hello", true);
    assert!(!matches!(first, Action::Fetch { .. }));
    let (resolver, action) = resolver.step(Event::cache_found(PRETTY.as_bytes()));
    assert_eq!(resolver, at(Phase::Finished, true));
    let expected = Event::response(BODY);
    match (action, expected) {
        (Action::Finish { document }, Event::Response { answer: Some(fetched) }) => {
            assert_eq!(document, fetched.document)
        }
        other => panic!("unexpected outcome {:?}", other),
    }
    for event in [Event::CacheAbsent, Event::DirectoryReady, Event::response(BODY), Event::Stored] {
        let (after, action) = at(Phase::Finished, true).step(event);
        assert_eq!(action, fail(LookupError::OutOfTurn));
        assert_eq!(after, at(Phase::Finished, true));
    }
}

#[test]
fn a_cache_file_that_is_no_json_ends_the_lookup() {
    let (resolver, _) = Resolver::begin("hello", true);
    let (resolver, action) = resolver.step(Event::cache_found(b"[{\"word\""));
    assert_eq!(action, fail(LookupError::Parse));
    assert_eq!(resolver, at(Phase::Finished, true));
}

#[test]
fn an_answer_that_is_no_json_ends_the_lookup() {
    for caching in [false, true] {
        let (resolver, action) = at(Phase::Fetching, caching).step(Event::response(b"<html>"));
        assert_eq!(action, fail(LookupError::Parse));
        assert_eq!(resolver, at(Phase::Finished, caching));
    }
}

#[test]
fn a_failed_request_is_a_network_error() {
    let (resolver, action) = at(Phase::Fetching, true).step(Event::Failed);
    assert_eq!(action, fail(LookupError::Network));
    assert_eq!(resolver, at(Phase::Finished, true));
}

#[test]
fn a_failure_of_the_disk_is_a_filesystem_error() {
    for phase in [Phase::Probing, Phase::Preparing, Phase::Storing { document: answer() }] {
        let (resolver, action) = at(phase, true).step(Event::Failed);
        assert_eq!(action, fail(LookupError::Filesystem));
        assert_eq!(resolver, at(Phase::Finished, true));
    }
}

#[test]
fn an_answer_that_cannot_be_written_out_is_an_encode_error() {
    let unwritten = Event::Response { answer: Some(Decoded { document: answer(), pretty: None }) };
    let (resolver, action) = at(Phase::Fetching, true).step(unwritten);
    assert_eq!(action, fail(LookupError::Encode));
    assert_eq!(resolver, at(Phase::Finished, true));
}

#[test]
fn without_caching_the_pretty_text_is_not_needed() {
    let unwritten = Event::Response { answer: Some(Decoded { document: answer(), pretty: None }) };
    let (_, action) = at(Phase::Fetching, false).step(unwritten);
    assert_eq!(action, Action::Finish { document: answer() });
}

#[test]
fn the_held_answer_is_handed_out_once_it_is_stored() {
    let (resolver, action) = at(Phase::Storing { document: answer() }, true).step(Event::Stored);
    assert_eq!(action, Action::Finish { document: answer() });
    assert_eq!(resolver, at(Phase::Finished, true));
}

#[test]
fn an_event_out_of_turn_ends_the_lookup() {
    let cases = [
        (Phase::Probing, Event::DirectoryReady),
        (Phase::Probing, Event::response(BODY)),
        (Phase::Probing, Event::Stored),
        (Phase::Preparing, Event::CacheAbsent),
        (Phase::Preparing, Event::cache_found(BODY)),
        (Phase::Preparing, Event::response(BODY)),
        (Phase::Fetching, Event::cache_found(BODY)),
        (Phase::Fetching, Event::DirectoryReady),
        (Phase::Fetching, Event::Stored),
        (Phase::Storing { document: answer() }, Event::response(BODY)),
        (Phase::Storing { document: answer() }, Event::CacheAbsent),
        (Phase::Finished, Event::Failed),
    ];
    for (phase, event) in cases {
        let (resolver, action) = at(phase, true).step(event);
        assert_eq!(action, fail(LookupError::OutOfTurn));
        assert_eq!(resolver, at(Phase::Finished, true));
    }
}

#[test]
fn the_word_is_escaped_in_the_address_and_kept_as_given_on_disk() {
    let (resolver, action) = Resolver::begin("ice cream", true);
    assert_eq!(action, Action::ReadCache { location: cache_location("ice cream") });
    let (resolver, _) = resolver.step(Event::CacheAbsent);
    let (_, action) = resolver.step(Event::DirectoryReady);
    assert_eq!(
        action,
        Action::Fetch {
            url: "https://api.dictionaryapi.dev/api/v2/entries/en/ice%20cream".to_string()
        }
    );
}

fn event_of_kind(kind: usize) -> Event {
    match kind {
        0 => Event::cache_found(BODY),
        1 => Event::cache_found(b"no json"),
        2 => Event::CacheAbsent,
        3 => Event::DirectoryReady,
        4 => Event::response(BODY),
        5 => Event::response(b"no json"),
        6 => Event::Stored,
        _ => Event::Failed,
    }
}

fn requests_of_run(caching: bool, mut code: usize, length: usize) -> usize {
    let (mut resolver, mut action) = Resolver::begin("hello", caching);
    let mut requests = usize::from(matches!(action, Action::Fetch { .. }));
    for _ in 0..length {
        (resolver, action) = resolver.step(event_of_kind(code % 8));
        code /= 8;
        requests += usize::from(matches!(action, Action::Fetch { .. }));
    }
    requests
}

#[test]
fn the_service_is_asked_at_most_once_whatever_is_reported() {
    for caching in [false, true] {
        for code in 0..8usize.pow(4) {
            assert!(requests_of_run(caching, code, 4) <= 1);
        }
    }
}

#[test]
fn without_caching_the_service_is_asked_exactly_once() {
    for code in 0..8usize.pow(3) {
        assert_eq!(requests_of_run(false, code, 3), 1);
    }
}
