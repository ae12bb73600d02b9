//! What the user has chosen: which catalogues to ask, and the credentials
//! for those that need one.

use vstd::prelude::*;
use vstd::string::StringExecFns;

verus! {

#[derive(Debug, Clone, PartialEq)]
pub struct UserSettings {
    pub spotify_id: String,
    pub spotify_secret: String,
    pub genius_token: String,
    pub lastfm_api_key: String,
    pub enable_apple_music: bool,
    pub enable_spotify: bool,
    pub enable_genius: bool,
    pub enable_lastfm: bool,
}

impl UserSettings {
    /// Whether these are the settings of a first start: only Apple Music is
    /// asked, and no credential is known.
    pub open spec fn is_initial(&self) -> bool {
        &&& self.spotify_id@.len() == 0
        &&& self.spotify_secret@.len() == 0
        &&& self.genius_token@.len() == 0
        &&& self.lastfm_api_key@.len() == 0
        &&& self.enable_apple_music
        &&& !self.enable_spotify
        &&& !self.enable_genius
        &&& !self.enable_lastfm
    }

    /// A copy of the settings.
    pub fn duplicate(&self) -> (copy: Self)
        ensures
            copy == *self,
    {
        Self {
            spotify_id: self.spotify_id.clone(),
            spotify_secret: self.spotify_secret.clone(),
            genius_token: self.genius_token.clone(),
            lastfm_api_key: self.lastfm_api_key.clone(),
            enable_apple_music: self.enable_apple_music,
            enable_spotify: self.enable_spotify,
            enable_genius: self.enable_genius,
            enable_lastfm: self.enable_lastfm,
        }
    }

    /// The name of the file the settings are kept in, beside the program.
    pub fn get_config_path() -> (path: String)
        ensures
            path@ == "config.json"@,
    {
        String::from_str("config.json")
    }

    /// The settings to start with: those that were stored, or the initial
    /// ones where nothing readable was stored.
    pub fn stored_or_default(stored: Option<UserSettings>) -> (settings: UserSettings)
        ensures
            match stored {
                Some(found) => settings == found,
                None => settings.is_initial(),
            },
    {
        match stored {
            Some(found) => found,
            None => UserSettings::default(),
        }
    }
}

impl Default for UserSettings {
    fn default() -> (settings: Self)
        ensures
            settings.is_initial(),
    {
        Self {
            spotify_id: String::new(),
            spotify_secret: String::new(),
            genius_token: String::new(),
            lastfm_api_key: String::new(),
            enable_apple_music: true,
            enable_spotify: false,
            enable_genius: false,
            enable_lastfm: false,
        }
    }
}

} // verus!
