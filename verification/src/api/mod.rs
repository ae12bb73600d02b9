//! The record every catalogue's answer is brought into, and the catalogues
//! themselves.

use vstd::prelude::*;
use crate::settings::UserSettings;
use self::genius::GeniusClient;
use self::http::Outcome;
use self::lastfm::LastFmClient;
use self::spotify::{ClientState, SpotifyClient};

pub mod apple_music;
pub mod encode;
pub mod error;
pub mod genius;
pub mod http;
pub mod lastfm;
pub mod spotify;

verus! {

/// The catalogue a record came from.
#[derive(Debug, Clone, Copy, PartialEq, Eq, Structural)]
pub enum Source {
    AppleMusic,
    Spotify,
    Genius,
    LastFm,
}

impl Source {
    /// The catalogue's name as shown to a person.
    pub open spec fn label_text(self) -> Seq<char> {
        match self {
            Source::AppleMusic => "Apple Music"@,
            Source::Spotify => "Spotify"@,
            Source::Genius => "Genius"@,
            Source::LastFm => "Last.fm"@,
        }
    }

    pub fn label(&self) -> (name: &'static str)
        ensures
            name@ == self.label_text(),
    {
        match self {
            Source::AppleMusic => "Apple Music",
            Source::Spotify => "Spotify",
            Source::Genius => "Genius",
            Source::LastFm => "Last.fm",
        }
    }
}

/// One track as a catalogue described it.
#[derive(Debug, Clone, PartialEq, Eq)]
pub struct MetadataResult {
    pub title: String,
    pub artist: String,
    pub album: String,
    pub cover_url: Option<String>,
    pub source: Source,
}

/// What a [`MetadataResult`] says, as plain text.
pub struct MetadataView {
    pub title: Seq<char>,
    pub artist: Seq<char>,
    pub album: Seq<char>,
    pub cover_url: Option<Seq<char>>,
    pub source: Source,
}

impl View for MetadataResult {
    type V = MetadataView;

    open spec fn view(&self) -> MetadataView {
        MetadataView {
            title: self.title@,
            artist: self.artist@,
            album: self.album@,
            cover_url: self.cover_url.deep_view(),
            source: self.source,
        }
    }
}

impl DeepView for MetadataResult {
    type V = MetadataView;

    open spec fn deep_view(&self) -> MetadataView {
        self@
    }
}

/// Whether the user has switched a catalogue on.
pub open spec fn enabled(settings: UserSettings, source: Source) -> bool {
    match source {
        Source::AppleMusic => settings.enable_apple_music,
        Source::Spotify => settings.enable_spotify,
        Source::Genius => settings.enable_genius,
        Source::LastFm => settings.enable_lastfm,
    }
}

/// The credential a catalogue cannot be asked without, if it needs one. For
/// Spotify that is the client id.
pub open spec fn credential(settings: UserSettings, source: Source) -> Option<Seq<char>> {
    match source {
        Source::AppleMusic => None,
        Source::Spotify => Some(settings.spotify_id@),
        Source::Genius => Some(settings.genius_token@),
        Source::LastFm => Some(settings.lastfm_api_key@),
    }
}

/// Whether a search asks a catalogue: it is switched on, and it needs no
/// credential or the credential is not empty.
pub open spec fn eligible(settings: UserSettings, source: Source) -> bool {
    enabled(settings, source) && match credential(settings, source) {
        Some(text) => text.len() > 0,
        None => true,
    }
}

pub fn is_eligible(settings: &UserSettings, source: Source) -> (asked: bool)
    ensures
        asked == eligible(*settings, source),
{
    match source {
        Source::AppleMusic => settings.enable_apple_music,
        Source::Spotify => settings.enable_spotify && !settings.spotify_id.as_str().is_empty(),
        Source::Genius => settings.enable_genius && !settings.genius_token.as_str().is_empty(),
        Source::LastFm => settings.enable_lastfm && !settings.lastfm_api_key.as_str().is_empty(),
    }
}

/// The catalogues one search asks, each with the client that asks it.
/// A catalogue that is missing here is sent nothing.
pub struct Dispatch {
    pub apple_music: bool,
    pub spotify: Option<SpotifyClient>,
    pub genius: Option<GeniusClient>,
    pub lastfm: Option<LastFmClient>,
}

impl Dispatch {
    /// Whether a catalogue is asked.
    pub open spec fn asks(&self, source: Source) -> bool {
        match source {
            Source::AppleMusic => self.apple_music,
            Source::Spotify => self.spotify is Some,
            Source::Genius => self.genius is Some,
            Source::LastFm => self.lastfm is Some,
        }
    }
}

/// Decides which catalogues a search asks: exactly the eligible ones. Each
/// client is new and holds the credentials from the settings.
pub fn dispatch(settings: &UserSettings) -> (plan: Dispatch)
    ensures
        plan.apple_music == eligible(*settings, Source::AppleMusic),
        plan.spotify is Some == eligible(*settings, Source::Spotify),
        plan.genius is Some == eligible(*settings, Source::Genius),
        plan.lastfm is Some == eligible(*settings, Source::LastFm),
        plan.spotify matches Some(client) ==> client@ == (ClientState {
            id: settings.spotify_id@,
            secret: settings.spotify_secret@,
            token: None,
            retried: false,
        }),
        plan.genius matches Some(client) ==> client.token() == settings.genius_token@,
        plan.lastfm matches Some(client) ==> client.key() == settings.lastfm_api_key@,
{
    let spotify = if is_eligible(settings, Source::Spotify) {
        Some(SpotifyClient::new(settings.spotify_id.clone(), settings.spotify_secret.clone()))
    } else {
        None
    };
    let genius = if is_eligible(settings, Source::Genius) {
        Some(GeniusClient::new(settings.genius_token.clone()))
    } else {
        None
    };
    let lastfm = if is_eligible(settings, Source::LastFm) {
        Some(LastFmClient::new(settings.lastfm_api_key.clone()))
    } else {
        None
    };
    Dispatch { apple_music: is_eligible(settings, Source::AppleMusic), spotify, genius, lastfm }
}

/// What one catalogue adds to the result: its records in its own order if
/// it was eligible and its search succeeded, and nothing otherwise.
pub open spec fn contribution(settings: UserSettings, source: Source, outcome: Option<Outcome>)
    -> Seq<MetadataView> {
    if eligible(settings, source) {
        match outcome {
            Some(Ok(records)) => records.deep_view(),
            _ => Seq::empty(),
        }
    } else {
        Seq::empty()
    }
}

/// The result of a search: the catalogues' contributions one after the
/// other, Apple Music first, then Spotify, Genius and Last.fm.
pub open spec fn joined(
    settings: UserSettings,
    apple_music: Option<Outcome>,
    spotify: Option<Outcome>,
    genius: Option<Outcome>,
    lastfm: Option<Outcome>,
) -> Seq<MetadataView> {
    contribution(settings, Source::AppleMusic, apple_music) + contribution(
        settings,
        Source::Spotify,
        spotify,
    ) + contribution(settings, Source::Genius, genius) + contribution(
        settings,
        Source::LastFm,
        lastfm,
    )
}

fn add_contribution(
    records: &mut Vec<MetadataResult>,
    settings: &UserSettings,
    source: Source,
    outcome: Option<Outcome>,
)
    ensures
        final(records).deep_view() == old(records).deep_view() + contribution(
            *settings,
            source,
            outcome,
        ),
{
    if is_eligible(settings, source) {
        if let Some(Ok(mut found)) = outcome {
            let ghost added = found.deep_view();
            records.append(&mut found);
            assert(records.deep_view() =~= old(records).deep_view() + added);
            return ;
        }
    }
    assert(records.deep_view() + Seq::empty() =~= records.deep_view());
}

/// Joins what the catalogues found into one list. Each argument is how that
/// catalogue's search ended, or `None` where it was not asked. A search
/// that failed adds nothing, and neither does a catalogue that the settings
/// leave out; the rest follow one another in the fixed order of [`joined`].
/// Nothing makes the joining itself fail.
pub fn search_all(
    settings: &UserSettings,
    apple_music: Option<Outcome>,
    spotify: Option<Outcome>,
    genius: Option<Outcome>,
    lastfm: Option<Outcome>,
) -> (records: Vec<MetadataResult>)
    ensures
        records.deep_view() == joined(*settings, apple_music, spotify, genius, lastfm),
{
    let mut records: Vec<MetadataResult> = Vec::new();
    assert(records.deep_view() =~= Seq::empty());
    add_contribution(&mut records, settings, Source::AppleMusic, apple_music);
    add_contribution(&mut records, settings, Source::Spotify, spotify);
    add_contribution(&mut records, settings, Source::Genius, genius);
    add_contribution(&mut records, settings, Source::LastFm, lastfm);
    assert(records.deep_view() =~= joined(*settings, apple_music, spotify, genius, lastfm));
    records
}

/// A catalogue that is switched off is not eligible, so [`dispatch`] makes
/// no client for it and nothing is sent to it.
pub proof fn lemma_disabled_not_asked(settings: UserSettings, source: Source)
    requires
        !enabled(settings, source),
    ensures
        !eligible(settings, source),
{
}

/// A catalogue that needs a credential and has an empty one is not eligible.
pub proof fn lemma_uncredentialed_not_asked(settings: UserSettings, source: Source)
    requires
        credential(settings, source) == Some(Seq::<char>::empty()),
    ensures
        !eligible(settings, source),
{
}

/// A catalogue that is not asked adds nothing, whatever is handed in for it.
pub proof fn lemma_not_asked_adds_nothing(
    settings: UserSettings,
    source: Source,
    outcome: Option<Outcome>,
)
    requires
        !eligible(settings, source),
    ensures
        contribution(settings, source, outcome) == Seq::<MetadataView>::empty(),
{
}

/// A search that failed adds nothing.
pub proof fn lemma_failure_adds_nothing(
    settings: UserSettings,
    source: Source,
    error: error::SearchError,
)
    ensures
        contribution(settings, source, Some(Err(error))) == Seq::<MetadataView>::empty(),
{
}

/// With every catalogue switched off no catalogue is asked and the result is
/// empty.
pub proof fn lemma_all_disabled_empty(
    settings: UserSettings,
    apple_music: Option<Outcome>,
    spotify: Option<Outcome>,
    genius: Option<Outcome>,
    lastfm: Option<Outcome>,
)
    requires
        forall|source: Source| !enabled(settings, source),
    ensures
        forall|source: Source| !eligible(settings, source),
        joined(settings, apple_music, spotify, genius, lastfm) == Seq::<MetadataView>::empty(),
{
    assert(!enabled(settings, Source::AppleMusic));
    assert(!enabled(settings, Source::Spotify));
    assert(!enabled(settings, Source::Genius));
    assert(!enabled(settings, Source::LastFm));
    assert(joined(settings, apple_music, spotify, genius, lastfm) =~= Seq::empty());
}

/// Where every catalogue is eligible and every search succeeded, the result
/// is the four lists one after the other, each in its own order.
pub proof fn lemma_result_order(
    settings: UserSettings,
    apple_music: Vec<MetadataResult>,
    spotify: Vec<MetadataResult>,
    genius: Vec<MetadataResult>,
    lastfm: Vec<MetadataResult>,
)
    requires
        forall|source: Source| eligible(settings, source),
    ensures
        joined(
            settings,
            Some(Ok(apple_music)),
            Some(Ok(spotify)),
            Some(Ok(genius)),
            Some(Ok(lastfm)),
        ) == apple_music.deep_view() + spotify.deep_view() + genius.deep_view()
            + lastfm.deep_view(),
{
    assert(eligible(settings, Source::AppleMusic));
    assert(eligible(settings, Source::Spotify));
    assert(eligible(settings, Source::Genius));
    assert(eligible(settings, Source::LastFm));
}

} // verus!
