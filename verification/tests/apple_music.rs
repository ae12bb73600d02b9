use navitag::api::apple_music::{
    normalize, request, search, upgrade_artwork, ItunesResponse, ItunesTrack,
};
use navitag::api::error::SearchError;
use navitag::api::http::{Credentials, Event, Method, Step};
use navitag::api::Source;

fn track(title: &str, artist: &str, album: &str, artwork: Option<&str>) -> ItunesTrack {
    ItunesTrack {
        track_name: Some(title.to_string()),
        artist_name: Some(artist.to_string()),
        collection_name: Some(album.to_string()),
        artwork_url: artwork.map(|u| u.to_string()),
    }
}

#[test]
fn artwork_marker_is_raised() {
    assert_eq!(upgrade_artwork("http://x/100x100bb.jpg"), "http://x/600x600bb.jpg");
}

#[test]
fn artwork_without_marker_is_kept() {
    assert_eq!(upgrade_artwork("http://x/cover.jpg"), "http://x/cover.jpg");
    assert_eq!(upgrade_artwork(""), "");
    assert_eq!(upgrade_artwork("100x10"), "100x10");
}

#[test]
fn artwork_every_marker_is_raised() {
    assert_eq!(upgrade_artwork("100x100/a/100x100"), "600x600/a/600x600");
    assert_eq!(upgrade_artwork("100x100x100"), "600x600x100");
    assert_eq!(upgrade_artwork("é100x100é"), "é600x600é");
}

#[test]
fn apple_request_encodes_the_term() {
    let sent = request("Daft Punk & friends");
    assert_eq!(sent.method, Method::Get);
    assert_eq!(
        sent.url,
        "https://itunes.apple.com/search?term=Daft%20Punk%20%26%20friends&media=music&entity=song&limit=10"
    );
    assert!(matches!(sent.credentials, Credentials::Anonymous));
    assert!(sent.form.is_empty());
}

#[test]
fn apple_request_encodes_utf8_bytes() {
    let sent = request("é~a-b_c.d");
    assert_eq!(
        sent.url,
        "https://itunes.apple.com/search?term=%C3%A9~a-b_c.d&media=music&entity=song&limit=10"
    );
}

#[test]
fn apple_missing_fields_become_empty() {
    let response = ItunesResponse {
        results: vec![ItunesTrack {
            track_name: None,
            artist_name: None,
            collection_name: None,
            artwork_url: None,
        }],
    };
    let records = normalize(response);
    assert_eq!(records.len(), 1);
    assert_eq!(records[0].title, "");
    assert_eq!(records[0].artist, "");
    assert_eq!(records[0].album, "");
    assert_eq!(records[0].cover_url, None);
    assert_eq!(records[0].source, Source::AppleMusic);
}

#[test]
fn apple_keeps_the_answer_order() {
    let response = ItunesResponse {
        results: vec![track("b", "B", "BB", None), track("a", "A", "AA", None)],
    };
    let records = normalize(response);
    assert_eq!(records.len(), 2);
    assert_eq!(records[0].title, "b");
    assert_eq!(records[1].title, "a");
}

#[test]
fn apple_search_steps() {
    match search("x", Event::Begin) {
        Step::Send(sent) => assert_eq!(sent.url, request("x").url),
        other => panic!("unexpected step {:?}", other),
    }
    assert!(matches!(search("x", Event::Status(200)), Step::Decode));
    assert!(matches!(search("x", Event::Status(299)), Step::Decode));
    assert!(matches!(
        search("x", Event::Status(404)),
        Step::Finish(Err(SearchError::Request(404)))
    ));
    assert!(matches!(
        search("x", Event::Status(199)),
        Step::Finish(Err(SearchError::Request(199)))
    ));
    assert!(matches!(
        search("x", Event::Status(300)),
        Step::Finish(Err(SearchError::Request(300)))
    ));
    assert!(matches!(
        search("x", Event::Unreachable),
        Step::Finish(Err(SearchError::Transport))
    ));
    assert!(matches!(search("x", Event::Body(None)), Step::Finish(Err(SearchError::Parse))));
    let response = ItunesResponse {
        results: vec![track("Song A", "Artist A", "Album A", Some("http://x/100x100bb.jpg"))],
    };
    match search("x", Event::Body(Some(response))) {
        Step::Finish(Ok(records)) => {
            assert_eq!(records.len(), 1);
            assert_eq!(records[0].cover_url.as_deref(), Some("http://x/600x600bb.jpg"));
        }
        other => panic!("unexpected step {:?}", other),
    }
}

fn encoded(term: &str) -> String {
    let url = request(term).url;
    let start = "https://itunes.apple.com/search?term=".len();
    let end = url.len() - "&media=music&entity=song&limit=10".len();
    url[start..end].to_string()
}

#[test]
fn unreserved_characters_stand_for_themselves() {
    assert_eq!(encoded(""), "");
    assert_eq!(
        encoded("ABCXYZabcxyz0123456789-._~"),
        "ABCXYZabcxyz0123456789-._~"
    );
}

#[test]
fn other_bytes_are_written_in_upper_case_hex() {
    assert_eq!(encoded(" "), "%20");
    assert_eq!(encoded("%"), "%25");
    assert_eq!(encoded("+"), "%2B");
    assert_eq!(encoded("/?&=#"), "%2F%3F%26%3D%23");
    assert_eq!(encoded("\u{0}\u{7f}"), "%00%7F");
    assert_eq!(encoded("@[`{"), "%40%5B%60%7B");
    assert_eq!(encoded("ÿ"), "%C3%BF");
    assert_eq!(encoded("日本"), "%E6%97%A5%E6%9C%AC");
    assert_eq!(encoded("😀"), "%F0%9F%98%80");
    assert_eq!(encoded("a b"), "a%20b");
}
