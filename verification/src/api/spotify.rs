//! The Spotify catalogue: a bearer token obtained by a client-credentials
//! grant, renewed once when a search is turned away as unauthorized.

use vstd::prelude::*;
use vstd::string::StringExecFns;
use super::encode::{encode_term, encoded_term};
use super::error::SearchError;
use super::http::{
    is_success, outcome_view, status_is_success, Credentials, CredentialsView, Event, FormField,
    HttpRequest, HttpRequestView, Method, Outcome, UNAUTHORIZED,
};
use super::{MetadataResult, MetadataView, Source};

verus! {

/// The body of a token exchange's answer.
#[derive(Debug, Clone)]
pub struct SpotifyTokenResponse {
    pub access_token: String,
}

/// The body of a search answer.
#[derive(Debug, Clone)]
pub struct SpotifySearchResponse {
    pub tracks: Tracks,
}

#[derive(Debug, Clone)]
pub struct Tracks {
    pub items: Vec<Track>,
}

#[derive(Debug, Clone)]
pub struct Track {
    pub name: String,
    pub album: Album,
    pub artists: Vec<Artist>,
}

#[derive(Debug, Clone)]
pub struct Album {
    pub name: String,
    pub images: Vec<Image>,
}

#[derive(Debug, Clone)]
pub struct Artist {
    pub name: String,
}

#[derive(Debug, Clone)]
pub struct Image {
    pub url: String,
    pub height: Option<u32>,
    pub width: Option<u32>,
}

/// The record a track becomes: its first artist, or none, and its album's
/// first image, or none.
pub open spec fn normalized_track(track: Track) -> MetadataView {
    MetadataView {
        title: track.name@,
        artist: if track.artists@.len() > 0 {
            track.artists@[0].name@
        } else {
            Seq::empty()
        },
        album: track.album.name@,
        cover_url: if track.album.images@.len() > 0 {
            Some(track.album.images@[0].url@)
        } else {
            None
        },
        source: Source::Spotify,
    }
}

/// The records an answer becomes: one for each track, in the answer's order.
pub open spec fn normalized(response: SpotifySearchResponse) -> Seq<MetadataView> {
    response.tracks.items@.map_values(|track: Track| normalized_track(track))
}

/// The request that exchanges a client's id and secret for a token.
pub open spec fn token_request(id: Seq<char>, secret: Seq<char>) -> HttpRequestView {
    HttpRequestView {
        method: Method::Post,
        url: "https://accounts.spotify.com/api/token"@,
        credentials: CredentialsView::Basic { user: id, password: secret },
        form: seq![("grant_type"@, "client_credentials"@)],
    }
}

/// The address a search for `term` is sent to.
pub open spec fn search_url(term: Seq<char>) -> Seq<char> {
    "https://api.spotify.com/v1/search?q="@ + encoded_term(term) + "&type=track&limit=10"@
}

/// The request a search for `term` sends with `token`.
pub open spec fn search_request(token: Seq<char>, term: Seq<char>) -> HttpRequestView {
    HttpRequestView {
        method: Method::Get,
        url: search_url(term),
        credentials: CredentialsView::Bearer(token),
        form: Seq::empty(),
    }
}

/// What a client knows: its id and secret, the token it holds if any, and
/// whether the search under way has already renewed the token.
pub struct ClientState {
    pub id: Seq<char>,
    pub secret: Seq<char>,
    pub token: Option<Seq<char>>,
    pub retried: bool,
}

/// What happened to the step a client last asked for, told apart by the
/// exchange it belongs to.
#[derive(Debug)]
pub enum SpotifyEvent {
    /// About the token exchange; [`Event::Begin`] starts one.
    Token(Event<SpotifyTokenResponse>),
    /// About the search request; [`Event::Begin`] starts a search.
    Search(Event<SpotifySearchResponse>),
}

/// What the caller is to do next in an authentication.
#[derive(Debug)]
pub enum AuthStep {
    /// Send this token request and report its status.
    Send(HttpRequest),
    /// Read the answer's body as a token answer and report it.
    Decode,
    /// The authentication is over.
    Done(Result<(), SearchError>),
}

pub enum AuthStepView {
    Send(HttpRequestView),
    Decode,
    Done(Result<(), SearchError>),
}

impl View for AuthStep {
    type V = AuthStepView;

    open spec fn view(&self) -> AuthStepView {
        match self {
            AuthStep::Send(request) => AuthStepView::Send(request@),
            AuthStep::Decode => AuthStepView::Decode,
            AuthStep::Done(result) => AuthStepView::Done(*result),
        }
    }
}

/// What the caller is to do next in a search.
#[derive(Debug)]
pub enum SpotifyStep {
    /// Send this token request and report it as a [`SpotifyEvent::Token`].
    SendToken(HttpRequest),
    /// Read the answer's body as a token answer.
    DecodeToken,
    /// Send this search request and report it as a [`SpotifyEvent::Search`].
    SendSearch(HttpRequest),
    /// Read the answer's body as a search answer.
    DecodeSearch,
    /// The search is over.
    Finish(Outcome),
}

pub enum SpotifyStepView {
    SendToken(HttpRequestView),
    DecodeToken,
    SendSearch(HttpRequestView),
    DecodeSearch,
    Finish(Result<Seq<MetadataView>, SearchError>),
}

impl View for SpotifyStep {
    type V = SpotifyStepView;

    open spec fn view(&self) -> SpotifyStepView {
        match self {
            SpotifyStep::SendToken(request) => SpotifyStepView::SendToken(request@),
            SpotifyStep::DecodeToken => SpotifyStepView::DecodeToken,
            SpotifyStep::SendSearch(request) => SpotifyStepView::SendSearch(request@),
            SpotifyStep::DecodeSearch => SpotifyStepView::DecodeSearch,
            SpotifyStep::Finish(outcome) => SpotifyStepView::Finish(outcome_view(*outcome)),
        }
    }
}

/// How an authentication goes on: the client afterwards, and the next step.
///
/// Beginning drops the token held and asks for the exchange. A refusal or
/// an unreadable answer ends it as an authentication failure and an
/// undelivered request as a transport failure, both leaving the client as it
/// is. A readable answer's token becomes the client's.
pub open spec fn auth_next(state: ClientState, event: Event<SpotifyTokenResponse>) -> (
    ClientState,
    AuthStepView,
) {
    match event {
        Event::Begin => (
            ClientState { token: None, ..state },
            AuthStepView::Send(token_request(state.id, state.secret)),
        ),
        Event::Unreachable => (state, AuthStepView::Done(Err(SearchError::Transport))),
        Event::Status(code) => if is_success(code) {
            (state, AuthStepView::Decode)
        } else {
            (state, AuthStepView::Done(Err(SearchError::Auth)))
        },
        Event::Body(None) => (state, AuthStepView::Done(Err(SearchError::Auth))),
        Event::Body(Some(answer)) => (
            ClientState { token: Some(answer.access_token@), ..state },
            AuthStepView::Done(Ok(())),
        ),
    }
}

/// The search step that follows an authentication step: a finished
/// authentication leads to the search request if a token is held.
pub open spec fn after_auth(state: ClientState, term: Seq<char>, step: AuthStepView)
    -> SpotifyStepView {
    match step {
        AuthStepView::Send(request) => SpotifyStepView::SendToken(request),
        AuthStepView::Decode => SpotifyStepView::DecodeToken,
        AuthStepView::Done(Err(error)) => SpotifyStepView::Finish(Err(error)),
        AuthStepView::Done(Ok(_)) => match state.token {
            Some(token) => SpotifyStepView::SendSearch(search_request(token, term)),
            None => SpotifyStepView::Finish(Err(SearchError::Auth)),
        },
    }
}

/// How a search for `term` goes on: the client afterwards, and the next step.
///
/// Beginning sends the search with the token held, or authenticates first
/// if none is held. A search turned away as unauthorized drops the token and
/// authenticates anew, once in a search; turned away again, or answered with
/// any other status that is no success, it ends with that status.
pub open spec fn search_next(state: ClientState, term: Seq<char>, event: SpotifyEvent) -> (
    ClientState,
    SpotifyStepView,
) {
    match event {
        SpotifyEvent::Search(Event::Begin) => {
            let fresh = ClientState { retried: false, ..state };
            match state.token {
                Some(token) => (fresh, SpotifyStepView::SendSearch(search_request(token, term))),
                None => {
                    let (next, step) = auth_next(fresh, Event::Begin);
                    (next, after_auth(next, term, step))
                },
            }
        },
        SpotifyEvent::Token(event) => {
            let (next, step) = auth_next(state, event);
            (next, after_auth(next, term, step))
        },
        SpotifyEvent::Search(Event::Unreachable) => (
            state,
            SpotifyStepView::Finish(Err(SearchError::Transport)),
        ),
        SpotifyEvent::Search(Event::Status(code)) => if code == UNAUTHORIZED && !state.retried {
            let (next, step) = auth_next(ClientState { retried: true, ..state }, Event::Begin);
            (next, after_auth(next, term, step))
        } else if is_success(code) {
            (state, SpotifyStepView::DecodeSearch)
        } else {
            (state, SpotifyStepView::Finish(Err(SearchError::Request(code))))
        },
        SpotifyEvent::Search(Event::Body(None)) => (
            state,
            SpotifyStepView::Finish(Err(SearchError::Parse)),
        ),
        SpotifyEvent::Search(Event::Body(Some(response))) => (
            state,
            SpotifyStepView::Finish(Ok(normalized(response))),
        ),
    }
}

pub fn normalize_track(track: Track) -> (record: MetadataResult)
    ensures
        record@ == normalized_track(track),
{
    let artist = if track.artists.len() > 0 {
        track.artists[0].name.clone()
    } else {
        String::new()
    };
    let cover_url = if track.album.images.len() > 0 {
        Some(track.album.images[0].url.clone())
    } else {
        None
    };
    MetadataResult {
        title: track.name,
        artist,
        album: track.album.name,
        cover_url,
        source: Source::Spotify,
    }
}

pub fn normalize(response: SpotifySearchResponse) -> (records: Vec<MetadataResult>)
    ensures
        records.deep_view() == normalized(response),
{
    let mut records: Vec<MetadataResult> = Vec::new();
    for track in it: response.tracks.items
        invariant
            it.seq() == response.tracks.items@,
            records@.len() == it.index(),
            forall|j: int|
                0 <= j < records@.len() ==> (#[trigger] records@[j])@ == normalized_track(
                    response.tracks.items@[j],
                ),
    {
        records.push(normalize_track(track));
    }
    assert(records.deep_view() =~= normalized(response));
    records
}

/// A client of the Spotify catalogue. It keeps the token of its last
/// successful authentication for the searches that follow.
pub struct SpotifyClient {
    client_id: String,
    client_secret: String,
    access_token: Option<String>,
    retried: bool,
}

impl View for SpotifyClient {
    type V = ClientState;

    closed spec fn view(&self) -> ClientState {
        ClientState {
            id: self.client_id@,
            secret: self.client_secret@,
            token: self.access_token.deep_view(),
            retried: self.retried,
        }
    }
}

impl SpotifyClient {
    /// A client that holds no token yet.
    pub fn new(client_id: String, client_secret: String) -> (client: Self)
        ensures
            client@ == (ClientState {
                id: client_id@,
                secret: client_secret@,
                token: None,
                retried: false,
            }),
    {
        Self { client_id, client_secret, access_token: None, retried: false }
    }

    /// Whether the client holds a token.
    pub fn is_authenticated(&self) -> (held: bool)
        ensures
            held == self@.token.is_some(),
    {
        self.access_token.is_some()
    }

    fn build_token_request(&self) -> (request: HttpRequest)
        ensures
            request@ == token_request(self@.id, self@.secret),
    {
        let mut form: Vec<FormField> = Vec::new();
        form.push(
            FormField {
                name: String::from_str("grant_type"),
                value: String::from_str("client_credentials"),
            },
        );
        assert(form.deep_view() =~= seq![("grant_type"@, "client_credentials"@)]);
        HttpRequest {
            method: Method::Post,
            url: String::from_str("https://accounts.spotify.com/api/token"),
            credentials: Credentials::Basic {
                user: self.client_id.clone(),
                password: self.client_secret.clone(),
            },
            form,
        }
    }

    fn build_search_request(token: &String, term: &str) -> (request: HttpRequest)
        ensures
            request@ == search_request(token@, term@),
    {
        let mut url = String::from_str("https://api.spotify.com/v1/search?q=");
        url.append(encode_term(term).as_str());
        url.append("&type=track&limit=10");
        let form: Vec<FormField> = Vec::new();
        assert(form.deep_view() =~= Seq::empty());
        HttpRequest {
            method: Method::Get,
            url,
            credentials: Credentials::Bearer(token.clone()),
            form,
        }
    }

    /// Takes an authentication one step further; see [`auth_next`].
    pub fn authenticate(&mut self, event: Event<SpotifyTokenResponse>) -> (step: AuthStep)
        ensures
            (final(self)@, step@) == auth_next(old(self)@, event),
    {
        match event {
            Event::Begin => {
                self.access_token = None;
                AuthStep::Send(self.build_token_request())
            },
            Event::Unreachable => AuthStep::Done(Err(SearchError::Transport)),
            Event::Status(code) => if status_is_success(code) {
                AuthStep::Decode
            } else {
                AuthStep::Done(Err(SearchError::Auth))
            },
            Event::Body(None) => AuthStep::Done(Err(SearchError::Auth)),
            Event::Body(Some(answer)) => {
                self.access_token = Some(answer.access_token);
                AuthStep::Done(Ok(()))
            },
        }
    }

    fn continue_after(&self, term: &str, step: AuthStep) -> (next: SpotifyStep)
        ensures
            next@ == after_auth(self@, term@, step@),
    {
        match step {
            AuthStep::Send(request) => SpotifyStep::SendToken(request),
            AuthStep::Decode => SpotifyStep::DecodeToken,
            AuthStep::Done(Err(error)) => SpotifyStep::Finish(Err(error)),
            AuthStep::Done(Ok(_)) => match &self.access_token {
                Some(token) => SpotifyStep::SendSearch(Self::build_search_request(token, term)),
                None => SpotifyStep::Finish(Err(SearchError::Auth)),
            },
        }
    }

    /// Takes a search for `term` one step further; see [`search_next`].
    pub fn search(&mut self, term: &str, event: SpotifyEvent) -> (step: SpotifyStep)
        ensures
            (final(self)@, step@) == search_next(old(self)@, term@, event),
    {
        match event {
            SpotifyEvent::Search(Event::Begin) => {
                self.retried = false;
                if self.access_token.is_none() {
                    let step = self.authenticate(Event::Begin);
                    self.continue_after(term, step)
                } else {
                    self.continue_after(term, AuthStep::Done(Ok(())))
                }
            },
            SpotifyEvent::Token(event) => {
                let step = self.authenticate(event);
                self.continue_after(term, step)
            },
            SpotifyEvent::Search(Event::Unreachable) => SpotifyStep::Finish(
                Err(SearchError::Transport),
            ),
            SpotifyEvent::Search(Event::Status(code)) => {
                if code == UNAUTHORIZED && !self.retried {
                    self.retried = true;
                    let step = self.authenticate(Event::Begin);
                    self.continue_after(term, step)
                } else if status_is_success(code) {
                    SpotifyStep::DecodeSearch
                } else {
                    SpotifyStep::Finish(Err(SearchError::Request(code)))
                }
            },
            SpotifyEvent::Search(Event::Body(None)) => SpotifyStep::Finish(
                Err(SearchError::Parse),
            ),
            SpotifyEvent::Search(Event::Body(Some(response))) => SpotifyStep::Finish(
                Ok(normalize(response)),
            ),
        }
    }
}

/// Whether `event` reports on `step`: a status or a failed delivery for a
/// request, a body for a body that was asked for. Nothing reports on the end
/// of a search.
pub open spec fn answers(step: SpotifyStepView, event: SpotifyEvent) -> bool {
    match step {
        SpotifyStepView::SendToken(_) => event is Token && (event->Token_0 is Unreachable
            || event->Token_0 is Status),
        SpotifyStepView::DecodeToken => event is Token && event->Token_0 is Body,
        SpotifyStepView::SendSearch(_) => event is Search && (event->Search_0 is Unreachable
            || event->Search_0 is Status),
        SpotifyStepView::DecodeSearch => event is Search && event->Search_0 is Body,
        SpotifyStepView::Finish(_) => false,
    }
}

/// The client and its latest step once a search for `term` was begun and
/// `events` were then reported in turn.
pub open spec fn conversation(state: ClientState, term: Seq<char>, events: Seq<SpotifyEvent>) -> (
    ClientState,
    SpotifyStepView,
)
    decreases events.len(),
{
    if events.len() == 0 {
        search_next(state, term, SpotifyEvent::Search(Event::Begin))
    } else {
        search_next(conversation(state, term, events.drop_last()).0, term, events.last())
    }
}

/// Whether each of `events` reports on the step that came before it.
pub open spec fn orderly(state: ClientState, term: Seq<char>, events: Seq<SpotifyEvent>) -> bool
    decreases events.len(),
{
    events.len() > 0 ==> {
        &&& orderly(state, term, events.drop_last())
        &&& answers(conversation(state, term, events.drop_last()).1, events.last())
    }
}

/// How many token requests the conversation has asked for.
pub open spec fn token_requests(state: ClientState, term: Seq<char>, events: Seq<SpotifyEvent>)
    -> nat
    decreases events.len(),
{
    let latest: nat = if conversation(state, term, events).1 is SendToken {
        1
    } else {
        0
    };
    if events.len() == 0 {
        latest
    } else {
        token_requests(state, term, events.drop_last()) + latest
    }
}

/// How many search requests the conversation has asked for.
pub open spec fn search_requests(state: ClientState, term: Seq<char>, events: Seq<SpotifyEvent>)
    -> nat
    decreases events.len(),
{
    let latest: nat = if conversation(state, term, events).1 is SendSearch {
        1
    } else {
        0
    };
    if events.len() == 0 {
        latest
    } else {
        search_requests(state, term, events.drop_last()) + latest
    }
}

/// What is still open in an orderly conversation: a search request behind a
/// pending authentication, and one renewal with its search while none was
/// used.
proof fn lemma_requests_budget(state: ClientState, term: Seq<char>, events: Seq<SpotifyEvent>)
    requires
        orderly(state, term, events),
    ensures
        ({
            let (now, step) = conversation(state, term, events);
            let renewal: nat = if now.retried { 0 } else { 1 };
            let pending: nat = if step is SendToken || step is DecodeToken { 1 } else { 0 };
            let cached: nat = if state.token is Some { 1 } else { 0 };
            &&& search_requests(state, term, events) + pending + renewal <= 2
            &&& token_requests(state, term, events) + renewal + cached <= 2
        }),
    decreases events.len(),
{
    if events.len() > 0 {
        lemma_requests_budget(state, term, events.drop_last());
    }
}

/// However the catalogue answers, one search sends at most two search
/// requests and at most two token requests, and at most one token request
/// when the client held a token at the start: a search turned away as
/// unauthorized is followed by one renewal and one more search, never by a
/// third.
pub proof fn lemma_requests_bounded(state: ClientState, term: Seq<char>, events: Seq<SpotifyEvent>)
    requires
        orderly(state, term, events),
    ensures
        search_requests(state, term, events) <= 2,
        token_requests(state, term, events) <= 2,
        state.token is Some ==> token_requests(state, term, events) <= 1,
{
    lemma_requests_budget(state, term, events);
}

/// A client that holds a token and whose search is turned away as
/// unauthorized drops the token, authenticates, and searches again with the
/// new token. Turned away a second time, the search ends with that status
/// and the client keeps the new token.
pub proof fn lemma_unauthorized_renews_once(
    state: ClientState,
    term: Seq<char>,
    renewed: SpotifyTokenResponse,
)
    requires
        state.token is Some,
    ensures
        ({
            let (s1, first) = search_next(state, term, SpotifyEvent::Search(Event::Begin));
            let (s2, renewal) = search_next(
                s1,
                term,
                SpotifyEvent::Search(Event::Status(UNAUTHORIZED)),
            );
            let (s3, decode) = search_next(s2, term, SpotifyEvent::Token(Event::Status(200)));
            let (s4, second) = search_next(
                s3,
                term,
                SpotifyEvent::Token(Event::Body(Some(renewed))),
            );
            let (s5, last) = search_next(
                s4,
                term,
                SpotifyEvent::Search(Event::Status(UNAUTHORIZED)),
            );
            &&& first == SpotifyStepView::SendSearch(search_request(state.token->0, term))
            &&& renewal == SpotifyStepView::SendToken(token_request(state.id, state.secret))
            &&& s2.token is None
            &&& decode == SpotifyStepView::DecodeToken
            &&& second == SpotifyStepView::SendSearch(
                search_request(renewed.access_token@, term),
            )
            &&& last == SpotifyStepView::Finish(Err(SearchError::Request(UNAUTHORIZED)))
            &&& s5.token == Some(renewed.access_token@)
        }),
{
}

/// An authentication that fails leaves the client without a token if it was
/// begun in the regular way.
pub proof fn lemma_failed_authentication_holds_no_token(
    state: ClientState,
    event: Event<SpotifyTokenResponse>,
)
    requires
        event is Unreachable || event is Status || (event is Body && event->Body_0 is None),
    ensures
        ({
            let (begun, _) = auth_next(state, Event::Begin);
            let (ended, step) = auth_next(begun, event);
            &&& ended.token is None
            &&& step is Done ==> step->Done_0 is Err
        }),
{
}

} // verus!
