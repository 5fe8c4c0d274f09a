use wiki_search::{
    fetch_outcome, search_url, unreserved, ContinueWikipedia, DataFromFile, FetchError, Model,
    Msg, QueryWikipedia, ResultWikipedia, SearchInfo, BUTTON_LABEL, PLACEHOLDER, SEARCH_ENDPOINT,
};

fn item(title: &str, snippet: &str, pageid: u32) -> ResultWikipedia {
    ResultWikipedia {
        ns: 0,
        title: title.to_string(),
        pageid,
        size: 100,
        wordcount: 10,
        snippet: snippet.to_string(),
        timestamp: "2020-01-01T00:00:00Z".to_string(),
    }
}

fn answer(items: Vec<ResultWikipedia>) -> DataFromFile {
    DataFromFile {
        batchcomplete: "".to_string(),
        continuation: ContinueWikipedia { sroffset: 1, token: "x".to_string() },
        query: QueryWikipedia { searchinfo: SearchInfo { totalhits: items.len() as u32 }, search: items },
    }
}

#[test]
fn initial_state_is_empty() {
    let m = Model::create();
    assert_eq!(m.text_search, "");
    assert!(!m.fetching);
    assert!(m.data.is_none());
}

#[test]
fn edit_sets_text_and_redraws() {
    for s in ["", "rust", "two words", "\u{e9}t\u{e9}"] {
        let mut m = Model::create();
        let u = m.update(Msg::UpdateSearchText(s.to_string()));
        assert_eq!(m.text_search, s);
        assert!(u.render);
        assert!(u.request.is_none());
        assert!(!m.fetching);
    }
}

#[test]
fn submit_issues_one_encoded_request() {
    let mut m = Model::create();
    m.update(Msg::UpdateSearchText("a b&c".to_string()));
    let u = m.update(Msg::FetchData);
    assert!(m.fetching);
    assert!(u.render);
    let url = u.request.expect("a request");
    assert_eq!(url, format!("{}a%20b%26c", SEARCH_ENDPOINT));
    assert_eq!(m.text_search, "a b&c");
}

#[test]
fn submit_with_empty_text() {
    let mut m = Model::create();
    let u = m.update(Msg::FetchData);
    assert!(m.fetching);
    assert_eq!(u.request, Some(SEARCH_ENDPOINT.to_string()));
}

#[test]
fn success_keeps_items_in_order() {
    let mut m = Model::create();
    m.update(Msg::FetchData);
    let items = vec![item("B", "second", 2), item("A", "first", 1), item("C", "third", 3)];
    let u = m.update(Msg::FetchReady(Ok(answer(items.clone()))));
    assert!(u.render);
    assert!(u.request.is_none());
    assert!(!m.fetching);
    assert_eq!(m.data, Some(items));
}

#[test]
fn failure_after_success_keeps_results() {
    let mut m = Model::create();
    let items = vec![item("Rust", "a language", 1)];
    m.update(Msg::FetchData);
    m.update(Msg::FetchReady(Ok(answer(items.clone()))));
    m.update(Msg::FetchData);
    let u = m.update(Msg::FetchReady(Err(FetchError::Status(500))));
    assert!(!u.render);
    assert!(!m.fetching);
    assert_eq!(m.data, Some(items));
}

#[test]
fn failure_before_any_success_leaves_no_results() {
    let mut m = Model::create();
    m.update(Msg::FetchData);
    m.update(Msg::FetchReady(Err(FetchError::Decode)));
    assert!(!m.fetching);
    assert!(m.data.is_none());
}

#[test]
fn ignore_changes_nothing() {
    let mut m = Model::create();
    m.update(Msg::UpdateSearchText("x".to_string()));
    let u = m.update(Msg::Ignore);
    assert!(!u.render);
    assert!(u.request.is_none());
    assert_eq!(m.text_search, "x");
    assert!(!m.fetching);
}

#[test]
fn undecodable_answer_is_a_failure() {
    match fetch_outcome(200, None) {
        Msg::FetchReady(Err(e)) => assert_eq!(e, FetchError::Decode),
        _ => panic!("expected a decode failure"),
    }
}

#[test]
fn error_status_is_a_failure() {
    match fetch_outcome(404, Some(answer(vec![]))) {
        Msg::FetchReady(Err(e)) => assert_eq!(e, FetchError::Status(404)),
        _ => panic!("expected a status failure"),
    }
    match fetch_outcome(199, None) {
        Msg::FetchReady(Err(e)) => assert_eq!(e, FetchError::Status(199)),
        _ => panic!("expected a status failure"),
    }
}

#[test]
fn success_status_with_body_succeeds() {
    for status in [200u16, 299] {
        match fetch_outcome(status, Some(answer(vec![item("T", "s", 7)]))) {
            Msg::FetchReady(Ok(d)) => assert_eq!(d.query.search[0].pageid, 7),
            _ => panic!("expected a success"),
        }
    }
}

#[test]
fn url_encoding_of_bytes() {
    assert_eq!(search_url("rust"), format!("{}rust", SEARCH_ENDPOINT));
    assert_eq!(search_url("A-z_0.9~"), format!("{}A-z_0.9~", SEARCH_ENDPOINT));
    assert_eq!(search_url("100%/?=+"), format!("{}100%25%2F%3F%3D%2B", SEARCH_ENDPOINT));
    assert_eq!(search_url("\u{e9}"), format!("{}%C3%A9", SEARCH_ENDPOINT));
    assert_eq!(search_url("\n"), format!("{}%0A", SEARCH_ENDPOINT));
}

#[test]
fn unreserved_bytes() {
    assert!(unreserved(b'a'));
    assert!(unreserved(b'Z'));
    assert!(unreserved(b'5'));
    assert!(unreserved(b'~'));
    assert!(!unreserved(b' '));
    assert!(!unreserved(b'/'));
    assert!(!unreserved(0xff));
}

#[test]
fn view_without_results() {
    let mut m = Model::create();
    m.update(Msg::UpdateSearchText("q".to_string()));
    let p = m.view();
    assert_eq!(p.placeholder, PLACEHOLDER);
    assert_eq!(p.placeholder, "Enter your search");
    assert_eq!(p.button, BUTTON_LABEL);
    assert_eq!(p.button, "Search Data");
    assert_eq!(p.value, "q");
    assert!(p.results.is_none());
}

#[test]
fn view_with_empty_result_set() {
    let mut m = Model::create();
    m.update(Msg::FetchReady(Ok(answer(vec![]))));
    assert_eq!(m.view().results, Some(vec![]));
}

#[test]
fn snippet_is_shown_as_given() {
    let mut m = Model::create();
    m.update(Msg::FetchReady(Ok(answer(vec![item("T", "<b>bold</b>", 1)]))));
    let blocks = m.view_data().expect("results");
    assert_eq!(blocks[0].snippet, "<b>bold</b>");
    assert_eq!(m.view_result(&m.data.as_ref().unwrap()[0]).title, "T");
}

#[test]
fn scenario_search_for_rust() {
    let mut m = Model::create();
    assert_eq!(m.text_search, "");
    assert!(!m.fetching);
    assert!(m.data.is_none());

    let u = m.update(Msg::UpdateSearchText("rust".to_string()));
    assert!(u.render);
    assert_eq!(m.text_search, "rust");
    assert!(!m.fetching);
    assert!(m.data.is_none());
    assert_eq!(m.view().value, "rust");

    let u = m.update(Msg::FetchData);
    assert!(m.fetching);
    let url = u.request.expect("a request");
    assert!(url.ends_with("srsearch=rust"));

    let d = DataFromFile {
        batchcomplete: "".to_string(),
        continuation: ContinueWikipedia { sroffset: 1, token: "x".to_string() },
        query: QueryWikipedia {
            searchinfo: SearchInfo { totalhits: 1 },
            search: vec![item("Rust", "a language", 1)],
        },
    };
    m.update(Msg::FetchReady(Ok(d)));
    assert!(!m.fetching);
    let data = m.data.as_ref().expect("results");
    assert_eq!(data.len(), 1);
    assert_eq!(data[0].title, "Rust");
    let page = m.view();
    let blocks = page.results.expect("a results region");
    assert_eq!(blocks.len(), 1);
    assert_eq!(blocks[0].title, "Rust");
    assert_eq!(blocks[0].snippet, "a language");
}
