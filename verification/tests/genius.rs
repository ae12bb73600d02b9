use navitag::api::error::SearchError;
use navitag::api::genius::{
    normalize, GeniusClient, GeniusHit, GeniusResponseData, GeniusSearchResponse, GeniusSong,
};
use navitag::api::http::{Credentials, Event, Method, Step};
use navitag::api::Source;

fn hit(title: &str, artists: &str, art: Option<&str>) -> GeniusHit {
    GeniusHit {
        result: GeniusSong {
            title: title.to_string(),
            artist_names: artists.to_string(),
            song_art_image_url: art.map(|u| u.to_string()),
        },
    }
}

fn answer(hits: Vec<GeniusHit>) -> GeniusSearchResponse {
    GeniusSearchResponse { response: GeniusResponseData { hits } }
}

#[test]
fn genius_without_token_is_misconfigured() {
    let client = GeniusClient::new(String::new());
    assert!(matches!(
        client.search("x", Event::Begin),
        Step::Finish(Err(SearchError::Config))
    ));
    assert!(matches!(
        client.search("x", Event::Status(200)),
        Step::Finish(Err(SearchError::Config))
    ));
    assert!(matches!(
        client.search("x", Event::Unreachable),
        Step::Finish(Err(SearchError::Config))
    ));
    assert!(matches!(
        client.search("x", Event::Body(Some(answer(vec![hit("a", "b", None)])))),
        Step::Finish(Err(SearchError::Config))
    ));
}

#[test]
fn genius_request_carries_the_token() {
    let client = GeniusClient::new("secret token".to_string());
    let sent = client.request("hey jude!");
    assert_eq!(sent.method, Method::Get);
    assert_eq!(sent.url, "https://api.genius.com/search?q=hey%20jude%21");
    match sent.credentials {
        Credentials::Bearer(token) => assert_eq!(token, "secret token"),
        other => panic!("unexpected credentials {:?}", other),
    }
    assert!(sent.form.is_empty());
}

#[test]
fn genius_search_steps() {
    let client = GeniusClient::new("t".to_string());
    match client.search("a b", Event::Begin) {
        Step::Send(sent) => assert_eq!(sent.url, "https://api.genius.com/search?q=a%20b"),
        other => panic!("unexpected step {:?}", other),
    }
    assert!(matches!(client.search("a b", Event::Status(204)), Step::Decode));
    assert!(matches!(
        client.search("a b", Event::Status(401)),
        Step::Finish(Err(SearchError::Request(401)))
    ));
    assert!(matches!(
        client.search("a b", Event::Status(500)),
        Step::Finish(Err(SearchError::Request(500)))
    ));
    assert!(matches!(
        client.search("a b", Event::Unreachable),
        Step::Finish(Err(SearchError::Transport))
    ));
    assert!(matches!(
        client.search("a b", Event::Body(None)),
        Step::Finish(Err(SearchError::Parse))
    ));
}

#[test]
fn genius_records_carry_the_placeholder_album() {
    let records = normalize(answer(vec![
        hit("One", "A & B", Some("http://img/100x100.jpg")),
        hit("Two", "C", None),
    ]));
    assert_eq!(records.len(), 2);
    assert_eq!(records[0].title, "One");
    assert_eq!(records[0].artist, "A & B");
    assert_eq!(records[0].album, "Unknown (Genius)");
    assert_eq!(records[0].cover_url.as_deref(), Some("http://img/100x100.jpg"));
    assert_eq!(records[0].source, Source::Genius);
    assert_eq!(records[1].title, "Two");
    assert_eq!(records[1].cover_url, None);
}

#[test]
fn genius_body_ends_the_search_with_records() {
    let client = GeniusClient::new("t".to_string());
    match client.search("x", Event::Body(Some(answer(vec![hit("One", "A", None)])))) {
        Step::Finish(Ok(records)) => {
            assert_eq!(records.len(), 1);
            assert_eq!(records[0].title, "One");
        }
        other => panic!("unexpected step {:?}", other),
    }
    match client.search("x", Event::Body(Some(answer(vec![])))) {
        Step::Finish(Ok(records)) => assert!(records.is_empty()),
        other => panic!("unexpected step {:?}", other),
    }
}
