//! The iTunes search catalogue: no credentials, one request per search.

use vstd::prelude::*;
use vstd::string::StringExecFns;
use super::encode::{encode_term, encoded_term};
use super::error::SearchError;
use super::http::{
    is_success, status_is_success, Credentials, CredentialsView, Event, FormField,
    HttpRequest, HttpRequestView, Method, Step, StepView,
};
use super::{MetadataResult, MetadataView, Source};
use crate::text::{
    lemma_replaced_absent, lemma_replaced_first, lemma_replaced_len, lemma_replaced_once,
    occurs_at, replace_all, replaced,
};

verus! {

/// The body of a search answer.
#[derive(Debug, Clone)]
pub struct ItunesResponse {
    pub results: Vec<ItunesTrack>,
}

/// One track of a search answer; the catalogue may leave any field out.
#[derive(Debug, Clone)]
pub struct ItunesTrack {
    pub track_name: Option<String>,
    pub artist_name: Option<String>,
    pub collection_name: Option<String>,
    pub artwork_url: Option<String>,
}

/// The text of a field, empty where the field is missing.
pub open spec fn text_or_empty(field: Option<String>) -> Seq<char> {
    match field {
        Some(text) => text@,
        None => Seq::empty(),
    }
}

/// An artwork address with each `100x100` size marker raised to `600x600`.
pub open spec fn upgraded_artwork(url: Seq<char>) -> Seq<char> {
    replaced(url, "100x100"@, "600x600"@)
}

/// The record a track becomes.
pub open spec fn normalized_track(track: ItunesTrack) -> MetadataView {
    MetadataView {
        title: text_or_empty(track.track_name),
        artist: text_or_empty(track.artist_name),
        album: text_or_empty(track.collection_name),
        cover_url: match track.artwork_url {
            Some(url) => Some(upgraded_artwork(url@)),
            None => None,
        },
        source: Source::AppleMusic,
    }
}

/// The records an answer becomes: one for each track, in the answer's order.
pub open spec fn normalized(response: ItunesResponse) -> Seq<MetadataView> {
    response.results@.map_values(|track: ItunesTrack| normalized_track(track))
}

/// The address a search for `term` is sent to.
pub open spec fn search_url(term: Seq<char>) -> Seq<char> {
    "https://itunes.apple.com/search?term="@ + encoded_term(term)
        + "&media=music&entity=song&limit=10"@
}

/// The request a search for `term` sends.
pub open spec fn search_request(term: Seq<char>) -> HttpRequestView {
    HttpRequestView {
        method: Method::Get,
        url: search_url(term),
        credentials: CredentialsView::Anonymous,
        form: Seq::empty(),
    }
}

/// The step that answers `event` in a search for `term`.
pub open spec fn search_step(term: Seq<char>, event: Event<ItunesResponse>) -> StepView {
    match event {
        Event::Begin => StepView::Send(search_request(term)),
        Event::Unreachable => StepView::Finish(Err(SearchError::Transport)),
        Event::Status(code) => if is_success(code) {
            StepView::Decode
        } else {
            StepView::Finish(Err(SearchError::Request(code)))
        },
        Event::Body(None) => StepView::Finish(Err(SearchError::Parse)),
        Event::Body(Some(response)) => StepView::Finish(Ok(normalized(response))),
    }
}

fn text_of(field: Option<String>) -> (text: String)
    ensures
        text@ == text_or_empty(field),
{
    match field {
        Some(text) => text,
        None => String::new(),
    }
}

/// Raises each `100x100` size marker in an artwork address to `600x600` and
/// leaves the rest of the address as it is.
pub fn upgrade_artwork(url: &str) -> (upgraded: String)
    ensures
        upgraded@ == upgraded_artwork(url@),
{
    replace_all(url, "100x100", "600x600")
}

pub fn normalize_track(track: ItunesTrack) -> (record: MetadataResult)
    ensures
        record@ == normalized_track(track),
{
    let cover_url = match track.artwork_url {
        Some(url) => Some(upgrade_artwork(url.as_str())),
        None => None,
    };
    MetadataResult {
        title: text_of(track.track_name),
        artist: text_of(track.artist_name),
        album: text_of(track.collection_name),
        cover_url,
        source: Source::AppleMusic,
    }
}

pub fn normalize(response: ItunesResponse) -> (records: Vec<MetadataResult>)
    ensures
        records.deep_view() == normalized(response),
{
    let mut records: Vec<MetadataResult> = Vec::new();
    for track in it: response.results
        invariant
            it.seq() == response.results@,
            records@.len() == it.index(),
            forall|j: int|
                0 <= j < records@.len() ==> (#[trigger] records@[j])@ == normalized_track(
                    response.results@[j],
                ),
    {
        records.push(normalize_track(track));
    }
    assert(records.deep_view() =~= normalized(response));
    records
}

pub fn request(term: &str) -> (request: HttpRequest)
    ensures
        request@ == search_request(term@),
{
    let mut url = String::from_str("https://itunes.apple.com/search?term=");
    url.append(encode_term(term).as_str());
    url.append("&media=music&entity=song&limit=10");
    let form: Vec<FormField> = Vec::new();
    assert(form.deep_view() =~= Seq::empty());
    HttpRequest { method: Method::Get, url, credentials: Credentials::Anonymous, form }
}

/// Takes a search for `term` one step further. Begun with [`Event::Begin`],
/// it asks for one request; an answer that is no success ends it with the
/// status, an unreadable body with a parse failure, and a readable one with
/// the answer's tracks as records.
pub fn search(term: &str, event: Event<ItunesResponse>) -> (step: Step)
    ensures
        step@ == search_step(term@, event),
{
    match event {
        Event::Begin => Step::Send(request(term)),
        Event::Unreachable => Step::Finish(Err(SearchError::Transport)),
        Event::Status(code) => if status_is_success(code) {
            Step::Decode
        } else {
            Step::Finish(Err(SearchError::Request(code)))
        },
        Event::Body(None) => Step::Finish(Err(SearchError::Parse)),
        Event::Body(Some(response)) => Step::Finish(Ok(normalize(response))),
    }
}

/// In an address, the first `100x100` gives way to `600x600`: what stands
/// before it is kept, and what stands behind it is upgraded in the same way.
pub proof fn lemma_first_marker_raised(url: Seq<char>, at: int)
    requires
        occurs_at(url, "100x100"@, at),
        forall|earlier: int| earlier < at ==> !occurs_at(url, "100x100"@, earlier),
    ensures
        upgraded_artwork(url) == url.take(at) + "600x600"@ + upgraded_artwork(url.skip(at + 7)),
{
    reveal_strlit("100x100");
    lemma_replaced_first(url, "100x100"@, "600x600"@, at);
}

/// An address that holds `100x100` in one place holds `600x600` there once
/// upgraded, and is the same everywhere else.
pub proof fn lemma_single_marker_raised(before: Seq<char>, after: Seq<char>)
    requires
        forall|at: int|
            occurs_at(before + "100x100"@ + after, "100x100"@, at) ==> at == before.len(),
    ensures
        upgraded_artwork(before + "100x100"@ + after) == before + "600x600"@ + after,
{
    reveal_strlit("100x100");
    lemma_replaced_once(before, "100x100"@, after, "600x600"@);
}

/// An address without `100x100` is passed through unchanged.
pub proof fn lemma_unmarked_unchanged(url: Seq<char>)
    requires
        forall|at: int| !occurs_at(url, "100x100"@, at),
    ensures
        upgraded_artwork(url) == url,
{
    lemma_replaced_absent(url, "100x100"@, "600x600"@);
}

/// Upgrading never changes an address's length.
pub proof fn lemma_upgrade_keeps_length(url: Seq<char>)
    ensures
        upgraded_artwork(url).len() == url.len(),
{
    reveal_strlit("100x100");
    reveal_strlit("600x600");
    lemma_replaced_len(url, "100x100"@, "600x600"@);
}

/// A track whose artwork address holds `100x100` in one place becomes a
/// record whose cover address holds `600x600` there and is otherwise the
/// track's address.
pub proof fn lemma_cover_marker_raised(track: ItunesTrack, before: Seq<char>, after: Seq<char>)
    requires
        track.artwork_url matches Some(url) && url@ == before + "100x100"@ + after,
        forall|at: int|
            occurs_at(before + "100x100"@ + after, "100x100"@, at) ==> at == before.len(),
    ensures
        normalized_track(track).cover_url == Some(before + "600x600"@ + after),
{
    lemma_single_marker_raised(before, after);
}

/// A search asks for a request only when it is begun: one search, one
/// request.
pub proof fn lemma_one_request(term: Seq<char>, event: Event<ItunesResponse>)
    requires
        search_step(term, event) is Send,
    ensures
        event is Begin,
{
}

} // verus!
