//! The Genius catalogue: a fixed bearer token, one request per search.

use vstd::prelude::*;
use vstd::string::StringExecFns;
use super::encode::{encode_term, encoded_term};
use super::error::SearchError;
use super::http::{
    is_success, status_is_success, Credentials, CredentialsView, Event, FormField,
    HttpRequest, HttpRequestView, Method, Step, StepView,
};
use super::{MetadataResult, MetadataView, Source};

verus! {

/// The body of a search answer.
#[derive(Debug, Clone)]
pub struct GeniusSearchResponse {
    pub response: GeniusResponseData,
}

#[derive(Debug, Clone)]
pub struct GeniusResponseData {
    pub hits: Vec<GeniusHit>,
}

#[derive(Debug, Clone)]
pub struct GeniusHit {
    pub result: GeniusSong,
}

#[derive(Debug, Clone)]
pub struct GeniusSong {
    pub title: String,
    pub artist_names: String,
    pub song_art_image_url: Option<String>,
}

/// The record a hit becomes. The catalogue names no album, so the record
/// carries a fixed text in its place.
pub open spec fn normalized_hit(hit: GeniusHit) -> MetadataView {
    MetadataView {
        title: hit.result.title@,
        artist: hit.result.artist_names@,
        album: "Unknown (Genius)"@,
        cover_url: hit.result.song_art_image_url.deep_view(),
        source: Source::Genius,
    }
}

/// The records an answer becomes: one for each hit, in the answer's order.
pub open spec fn normalized(response: GeniusSearchResponse) -> Seq<MetadataView> {
    response.response.hits@.map_values(|hit: GeniusHit| normalized_hit(hit))
}

/// The address a search for `term` is sent to.
pub open spec fn search_url(term: Seq<char>) -> Seq<char> {
    "https://api.genius.com/search?q="@ + encoded_term(term)
}

/// The request a search for `term` sends with `token`.
pub open spec fn search_request(token: Seq<char>, term: Seq<char>) -> HttpRequestView {
    HttpRequestView {
        method: Method::Get,
        url: search_url(term),
        credentials: CredentialsView::Bearer(token),
        form: Seq::empty(),
    }
}

/// The step that answers `event` in a search for `term` by a client that
/// holds `token`. Without a token every step ends the search.
pub open spec fn search_step(
    token: Seq<char>,
    term: Seq<char>,
    event: Event<GeniusSearchResponse>,
) -> StepView {
    if token.len() == 0 {
        StepView::Finish(Err(SearchError::Config))
    } else {
        match event {
            Event::Begin => StepView::Send(search_request(token, term)),
            Event::Unreachable => StepView::Finish(Err(SearchError::Transport)),
            Event::Status(code) => if is_success(code) {
                StepView::Decode
            } else {
                StepView::Finish(Err(SearchError::Request(code)))
            },
            Event::Body(None) => StepView::Finish(Err(SearchError::Parse)),
            Event::Body(Some(response)) => StepView::Finish(Ok(normalized(response))),
        }
    }
}

pub fn normalize_hit(hit: GeniusHit) -> (record: MetadataResult)
    ensures
        record@ == normalized_hit(hit),
{
    MetadataResult {
        title: hit.result.title,
        artist: hit.result.artist_names,
        album: String::from_str("Unknown (Genius)"),
        cover_url: hit.result.song_art_image_url,
        source: Source::Genius,
    }
}

pub fn normalize(response: GeniusSearchResponse) -> (records: Vec<MetadataResult>)
    ensures
        records.deep_view() == normalized(response),
{
    let mut records: Vec<MetadataResult> = Vec::new();
    for hit in it: response.response.hits
        invariant
            it.seq() == response.response.hits@,
            records@.len() == it.index(),
            forall|j: int|
                0 <= j < records@.len() ==> (#[trigger] records@[j])@ == normalized_hit(
                    response.response.hits@[j],
                ),
    {
        records.push(normalize_hit(hit));
    }
    assert(records.deep_view() =~= normalized(response));
    records
}

/// A client of the Genius catalogue.
pub struct GeniusClient {
    access_token: String,
}

impl GeniusClient {
    /// The token the client sends.
    pub closed spec fn token(&self) -> Seq<char> {
        self.access_token@
    }

    pub fn new(access_token: String) -> (client: Self)
        ensures
            client.token() == access_token@,
    {
        Self { access_token }
    }

    pub fn request(&self, term: &str) -> (request: HttpRequest)
        ensures
            request@ == search_request(self.token(), term@),
    {
        let mut url = String::from_str("https://api.genius.com/search?q=");
        url.append(encode_term(term).as_str());
        let form: Vec<FormField> = Vec::new();
        assert(form.deep_view() =~= Seq::empty());
        HttpRequest {
            method: Method::Get,
            url,
            credentials: Credentials::Bearer(self.access_token.clone()),
            form,
        }
    }

    /// Takes a search for `term` one step further. A client without a token
    /// ends the search at once and asks for nothing to be sent. Otherwise the
    /// search asks for one request; an answer that is no success ends it
    /// with the status, an unreadable body with a parse failure, and a
    /// readable one with the answer's hits as records.
    pub fn search(&self, term: &str, event: Event<GeniusSearchResponse>) -> (step: Step)
        ensures
            step@ == search_step(self.token(), term@, event),
    {
        if self.access_token.as_str().is_empty() {
            return Step::Finish(Err(SearchError::Config));
        }
        match event {
            Event::Begin => Step::Send(self.request(term)),
            Event::Unreachable => Step::Finish(Err(SearchError::Transport)),
            Event::Status(code) => if status_is_success(code) {
                Step::Decode
            } else {
                Step::Finish(Err(SearchError::Request(code)))
            },
            Event::Body(None) => Step::Finish(Err(SearchError::Parse)),
            Event::Body(Some(response)) => Step::Finish(Ok(normalize(response))),
        }
    }
}

/// A client without a token ends every search as misconfigured and never
/// asks for a request to be sent.
pub proof fn lemma_missing_token_sends_nothing(term: Seq<char>, event: Event<GeniusSearchResponse>)
    ensures
        search_step(Seq::empty(), term, event) == StepView::Finish(Err(SearchError::Config)),
{
}

/// A search asks for a request only when it is begun: one search, one
/// request.
pub proof fn lemma_one_request(
    token: Seq<char>,
    term: Seq<char>,
    event: Event<GeniusSearchResponse>,
)
    requires
        search_step(token, term, event) is Send,
    ensures
        event is Begin,
        token.len() > 0,
{
}

} // verus!
