//! The Last.fm catalogue: an API key in the query, one request per search.

use vstd::prelude::*;
use vstd::string::StringExecFns;
use super::encode::{encode_term, encoded_term};
use super::error::SearchError;
use super::http::{
    is_success, status_is_success, Credentials, CredentialsView, Event, FormField,
    HttpRequest, HttpRequestView, Method, Step, StepView,
};
use super::{MetadataResult, MetadataView, Source};

verus! {

/// The body of a search answer.
#[derive(Debug, Clone)]
pub struct LastFmSearchResponse {
    pub results: LastFmResults,
}

#[derive(Debug, Clone)]
pub struct LastFmResults {
    pub trackmatches: LastFmTrackMatches,
}

#[derive(Debug, Clone)]
pub struct LastFmTrackMatches {
    pub track: Vec<LastFmTrack>,
}

#[derive(Debug, Clone)]
pub struct LastFmTrack {
    pub name: String,
    pub artist: String,
    pub image: Option<Vec<LastFmImage>>,
}

/// One artwork address of a track, tagged with the size it is offered in.
#[derive(Debug, Clone)]
pub struct LastFmImage {
    pub url: String,
    pub size: String,
}

/// The position of the first image tagged `size`, if there is one.
pub open spec fn first_tagged(images: Seq<LastFmImage>, size: Seq<char>) -> Option<int>
    decreases images.len(),
{
    if images.len() == 0 {
        None
    } else if images[0].size@ == size {
        Some(0)
    } else {
        match first_tagged(images.skip(1), size) {
            Some(at) => Some(at + 1),
            None => None,
        }
    }
}

/// The address of the first image tagged `size`, unless there is no such
/// image or its address is empty.
pub open spec fn tagged_url(images: Seq<LastFmImage>, size: Seq<char>) -> Option<Seq<char>> {
    match first_tagged(images, size) {
        Some(at) => if images[at].url@.len() > 0 {
            Some(images[at].url@)
        } else {
            None
        },
        None => None,
    }
}

/// The artwork chosen from a track's images: the `extralarge` one, else the
/// `large` one. For each tag only the first image that carries it counts.
pub open spec fn best_image(images: Seq<LastFmImage>) -> Option<Seq<char>> {
    match tagged_url(images, "extralarge"@) {
        Some(url) => Some(url),
        None => tagged_url(images, "large"@),
    }
}

/// The record a track becomes. The catalogue names no album, so the record
/// carries a fixed text in its place.
pub open spec fn normalized_track(track: LastFmTrack) -> MetadataView {
    MetadataView {
        title: track.name@,
        artist: track.artist@,
        album: "Unknown (Last.fm)"@,
        cover_url: match track.image {
            Some(images) => best_image(images@),
            None => None,
        },
        source: Source::LastFm,
    }
}

/// The records an answer becomes: one for each track, in the answer's order.
pub open spec fn normalized(response: LastFmSearchResponse) -> Seq<MetadataView> {
    response.results.trackmatches.track@.map_values(|track: LastFmTrack| normalized_track(track))
}

/// The address a search for `term` is sent to. The key is written as it is.
pub open spec fn search_url(api_key: Seq<char>, term: Seq<char>) -> Seq<char> {
    "http://ws.audioscrobbler.com/2.0/?method=track.search&track="@ + encoded_term(term)
        + "&api_key="@ + api_key + "&format=json"@
}

/// The request a search for `term` sends with `api_key`.
pub open spec fn search_request(api_key: Seq<char>, term: Seq<char>) -> HttpRequestView {
    HttpRequestView {
        method: Method::Get,
        url: search_url(api_key, term),
        credentials: CredentialsView::Anonymous,
        form: Seq::empty(),
    }
}

/// The step that answers `event` in a search for `term` by a client that
/// holds `api_key`. Without a key every step ends the search.
pub open spec fn search_step(
    api_key: Seq<char>,
    term: Seq<char>,
    event: Event<LastFmSearchResponse>,
) -> StepView {
    if api_key.len() == 0 {
        StepView::Finish(Err(SearchError::Config))
    } else {
        match event {
            Event::Begin => StepView::Send(search_request(api_key, term)),
            Event::Unreachable => StepView::Finish(Err(SearchError::Transport)),
            Event::Status(code) => if is_success(code) {
                StepView::Decode
            } else {
                StepView::Finish(Err(SearchError::Request(code)))
            },
            Event::Body(None) => StepView::Finish(Err(SearchError::Parse)),
            Event::Body(Some(response)) => StepView::Finish(Ok(normalized(response))),
        }
    }
}

/// A tag that none of the images up to `upto` carries is first carried, if
/// at all, behind them.
proof fn lemma_first_tagged_skips(images: Seq<LastFmImage>, size: Seq<char>, upto: int)
    requires
        0 <= upto <= images.len(),
        forall|j: int| 0 <= j < upto ==> images[j].size@ != size,
    ensures
        first_tagged(images, size) == match first_tagged(images.skip(upto), size) {
            Some(at) => Some(at + upto),
            None => None,
        },
    decreases upto,
{
    if upto == 0 {
        assert(images.skip(0) =~= images);
    } else {
        let rest = images.skip(1);
        assert forall|j: int| 0 <= j < upto - 1 implies rest[j].size@ != size by {
            assert(rest[j] == images[j + 1]);
        }
        lemma_first_tagged_skips(rest, size, upto - 1);
        assert(rest.skip(upto - 1) =~= images.skip(upto));
    }
}

/// The address of the first image tagged `size`, unless there is no such
/// image or its address is empty.
pub fn find_tagged(images: &Vec<LastFmImage>, size: &str) -> (url: Option<String>)
    ensures
        url.deep_view() == tagged_url(images@, size@),
{
    let wanted = String::from_str(size);
    let n: usize = images.len();
    let mut i: usize = 0;
    while i < n
        invariant
            n == images@.len(),
            i <= n,
            wanted@ == size@,
            forall|j: int| 0 <= j < i ==> images@[j].size@ != size@,
        decreases n - i,
    {
        if images[i].size == wanted {
            proof {
                lemma_first_tagged_skips(images@, size@, i as int);
                assert(images@.skip(i as int)[0] == images@[i as int]);
            }
            if images[i].url.as_str().is_empty() {
                return None;
            }
            return Some(images[i].url.clone());
        }
        i += 1;
    }
    proof {
        lemma_first_tagged_skips(images@, size@, n as int);
    }
    None
}

/// The artwork chosen from a track's images.
pub fn choose_image(images: &Vec<LastFmImage>) -> (url: Option<String>)
    ensures
        url.deep_view() == best_image(images@),
{
    match find_tagged(images, "extralarge") {
        Some(url) => Some(url),
        None => find_tagged(images, "large"),
    }
}

pub fn normalize_track(track: LastFmTrack) -> (record: MetadataResult)
    ensures
        record@ == normalized_track(track),
{
    let cover_url = match &track.image {
        Some(images) => choose_image(images),
        None => None,
    };
    MetadataResult {
        title: track.name,
        artist: track.artist,
        album: String::from_str("Unknown (Last.fm)"),
        cover_url,
        source: Source::LastFm,
    }
}

pub fn normalize(response: LastFmSearchResponse) -> (records: Vec<MetadataResult>)
    ensures
        records.deep_view() == normalized(response),
{
    let mut records: Vec<MetadataResult> = Vec::new();
    for track in it: response.results.trackmatches.track
        invariant
            it.seq() == response.results.trackmatches.track@,
            records@.len() == it.index(),
            forall|j: int|
                0 <= j < records@.len() ==> (#[trigger] records@[j])@ == normalized_track(
                    response.results.trackmatches.track@[j],
                ),
    {
        records.push(normalize_track(track));
    }
    assert(records.deep_view() =~= normalized(response));
    records
}

/// A client of the Last.fm catalogue.
pub struct LastFmClient {
    api_key: String,
}

impl LastFmClient {
    /// The key the client sends.
    pub closed spec fn key(&self) -> Seq<char> {
        self.api_key@
    }

    pub fn new(api_key: String) -> (client: Self)
        ensures
            client.key() == api_key@,
    {
        Self { api_key }
    }

    pub fn request(&self, term: &str) -> (request: HttpRequest)
        ensures
            request@ == search_request(self.key(), term@),
    {
        let mut url = String::from_str(
            "http://ws.audioscrobbler.com/2.0/?method=track.search&track=",
        );
        url.append(encode_term(term).as_str());
        url.append("&api_key=");
        url.append(self.api_key.as_str());
        url.append("&format=json");
        let form: Vec<FormField> = Vec::new();
        assert(form.deep_view() =~= Seq::empty());
        HttpRequest { method: Method::Get, url, credentials: Credentials::Anonymous, form }
    }

    /// Takes a search for `term` one step further. A client without a key
    /// ends the search at once and asks for nothing to be sent. Otherwise the
    /// search asks for one request; an answer that is no success ends it
    /// with the status, an unreadable body with a parse failure, and a
    /// readable one with the answer's tracks as records.
    pub fn search(&self, term: &str, event: Event<LastFmSearchResponse>) -> (step: Step)
        ensures
            step@ == search_step(self.key(), term@, event),
    {
        if self.api_key.as_str().is_empty() {
            return Step::Finish(Err(SearchError::Config));
        }
        match event {
            Event::Begin => Step::Send(self.request(term)),
            Event::Unreachable => Step::Finish(Err(SearchError::Transport)),
            Event::Status(code) => if status_is_success(code) {
                Step::Decode
            } else {
                Step::Finish(Err(SearchError::Request(code)))
            },
            Event::Body(None) => Step::Finish(Err(SearchError::Parse)),
            Event::Body(Some(response)) => Step::Finish(Ok(normalize(response))),
        }
    }
}

/// A track with no images has no cover.
pub proof fn lemma_no_images_no_cover()
    ensures
        best_image(Seq::<LastFmImage>::empty()) == None::<Seq<char>>,
{
}

/// Where the first image tagged `extralarge` has an address, that address
/// is the cover, whatever else the list holds.
pub proof fn lemma_extralarge_preferred(images: Seq<LastFmImage>, at: int)
    requires
        0 <= at < images.len(),
        forall|j: int| 0 <= j < at ==> images[j].size@ != "extralarge"@,
        images[at].size@ == "extralarge"@,
        images[at].url@.len() > 0,
    ensures
        best_image(images) == Some(images[at].url@),
{
    lemma_first_tagged_skips(images, "extralarge"@, at);
    assert(images.skip(at)[0] == images[at]);
}

/// Where no image is tagged `extralarge` and the first image tagged `large`
/// has an address, that address is the cover.
pub proof fn lemma_large_without_extralarge(images: Seq<LastFmImage>, at: int)
    requires
        0 <= at < images.len(),
        forall|j: int| 0 <= j < images.len() ==> images[j].size@ != "extralarge"@,
        forall|j: int| 0 <= j < at ==> images[j].size@ != "large"@,
        images[at].size@ == "large"@,
        images[at].url@.len() > 0,
    ensures
        best_image(images) == Some(images[at].url@),
{
    lemma_first_tagged_skips(images, "extralarge"@, images.len() as int);
    lemma_first_tagged_skips(images, "large"@, at);
    assert(images.skip(at)[0] == images[at]);
}

/// An image list that holds nothing but one `large` image with an address
/// gives that address as the cover.
pub proof fn lemma_only_large(image: LastFmImage)
    requires
        image.size@ == "large"@,
        image.url@.len() > 0,
    ensures
        best_image(seq![image]) == Some(image.url@),
{
    reveal_strlit("large");
    reveal_strlit("extralarge");
    assert("large"@.len() == 5 && "extralarge"@.len() == 10);
    lemma_large_without_extralarge(seq![image], 0);
}

/// A client without a key ends every search as misconfigured and never
/// asks for a request to be sent.
pub proof fn lemma_missing_key_sends_nothing(term: Seq<char>, event: Event<LastFmSearchResponse>)
    ensures
        search_step(Seq::empty(), term, event) == StepView::Finish(Err(SearchError::Config)),
{
}

/// A search asks for a request only when it is begun: one search, one
/// request.
pub proof fn lemma_one_request(
    api_key: Seq<char>,
    term: Seq<char>,
    event: Event<LastFmSearchResponse>,
)
    requires
        search_step(api_key, term, event) is Send,
    ensures
        event is Begin,
        api_key.len() > 0,
{
}

} // verus!
