//! The editor's state and what each of the user's actions makes of it: what
//! to search for, how search results are laid over the open files, when
//! edits are saved, and what the user is told.
//!
//! The editor touches neither files nor the network. Where an action needs
//! such work it hands out a [`Command`]; the caller does the work and tells
//! the editor what came of it.

use std::path::PathBuf;
use std::time::Instant;
use vstd::prelude::*;
use vstd::string::StringExecFns;
use crate::api::MetadataResult;
use crate::audio::AudioFile;
use crate::clock;
use crate::cover::{empty_slots, jobs_for, store_thumbnail, thumbnail_jobs, ThumbnailJob};
use crate::settings::UserSettings;
use crate::text::{decimal, decimal_text, trim, trimmed};
use crate::toast::Status;

verus! {

/// How long after the last edit the file is saved by itself, in
/// nanoseconds: one second.
pub const AUTOSAVE_DELAY_NS: u64 = 1_000_000_000;

/// The search term proposed for a file: its artist and its title with a
/// space between, without white space at the ends.
pub fn search_query_for(file: &AudioFile) -> (query: String)
    ensures
        query@ == trimmed(file.artist@ + " "@ + file.title@),
{
    let mut joined = file.artist.clone();
    joined.append(" ");
    joined.append(file.title.as_str());
    trim(joined.as_str())
}

/// Whether `after` is `before` with title, artist and album taken from
/// `record`.
pub open spec fn overlaid(before: AudioFile, after: AudioFile, record: MetadataResult) -> bool {
    &&& after.title@ == record.title@
    &&& after.artist@ == record.artist@
    &&& after.album@ == record.album@
    &&& after.path == before.path
    &&& after.year == before.year
    &&& after.picture_data == before.picture_data
    &&& after.thumbnail_data == before.thumbnail_data
}

/// Lays search results over the open files, the first result over the first
/// file and so on, as far as both lists go. Returns how many files were
/// changed; the files behind them are left as they are.
pub fn apply_batch(files: &mut Vec<AudioFile>, results: &Vec<MetadataResult>) -> (count: usize)
    ensures
        count == if old(files)@.len() <= results@.len() {
            old(files)@.len()
        } else {
            results@.len()
        },
        final(files)@.len() == old(files)@.len(),
        forall|i: int|
            0 <= i < count ==> overlaid(
                old(files)@[i],
                #[trigger] final(files)@[i],
                results@[i],
            ),
        forall|i: int|
            count <= i < old(files)@.len() ==> #[trigger] final(files)@[i] == old(files)@[i],
{
    let count: usize = if files.len() <= results.len() {
        files.len()
    } else {
        results.len()
    };
    let mut i: usize = 0;
    while i < count
        invariant
            i <= count,
            count <= results@.len(),
            count <= files@.len(),
            files@.len() == old(files)@.len(),
            forall|j: int|
                0 <= j < i ==> overlaid(old(files)@[j], #[trigger] files@[j], results@[j]),
            forall|j: int| i <= j < files@.len() ==> #[trigger] files@[j] == old(files)@[j],
        decreases count - i,
    {
        let file = &mut files[i];
        file.apply(&results[i]);
        i += 1;
    }
    count
}

/// Whether unsaved edits are due to be saved: there are some, and the last
/// one is more than a second old.
pub fn autosave_due(has_unsaved_changes: bool, since_last_edit_ns: Option<u128>) -> (due: bool)
    ensures
        due == match since_last_edit_ns {
            Some(age) => has_unsaved_changes && age > AUTOSAVE_DELAY_NS,
            None => false,
        },
{
    match since_last_edit_ns {
        Some(age) => has_unsaved_changes && age > AUTOSAVE_DELAY_NS as u128,
        None => false,
    }
}

/// What the user is told once all files were saved, if anything.
#[derive(Debug, Clone, Copy, PartialEq, Eq, Structural)]
pub enum SaveReport {
    /// No file was open.
    Silent,
    /// Every one of this many files was saved.
    AllSaved(usize),
    /// Some files could not be saved.
    Failures { saved: usize, failed: usize },
}

/// Sums up a save of all files: any failure makes it a report of failures,
/// and a save of no file at all is passed over in silence.
pub fn save_report(saved: usize, failed: usize) -> (report: SaveReport)
    ensures
        report == if failed > 0 {
            (SaveReport::Failures { saved, failed })
        } else if saved > 0 {
            SaveReport::AllSaved(saved)
        } else {
            SaveReport::Silent
        },
{
    if failed == 0 && saved > 0 {
        SaveReport::AllSaved(saved)
    } else if failed > 0 {
        SaveReport::Failures { saved, failed }
    } else {
        SaveReport::Silent
    }
}

/// The two screens of the program.
#[derive(Debug, Clone, Copy, PartialEq, Eq, Structural)]
pub enum Page {
    TitleScreen,
    Editor,
}

/// Something to tell the user.
#[derive(Debug, Clone)]
pub struct Notice {
    pub status: Status,
    pub title: String,
    pub body: String,
}

impl Notice {
    /// Whether the notice has this status and these texts.
    pub open spec fn says(&self, status: Status, title: Seq<char>, body: Seq<char>) -> bool {
        self.status == status && self.title@ == title && self.body@ == body
    }

    pub fn new(status: Status, title: &str, body: &str) -> (notice: Self)
        ensures
            notice.says(status, title@, body@),
    {
        Self { status, title: String::from_str(title), body: String::from_str(body) }
    }
}

/// Work the editor leaves to its caller. What comes of it is handed back
/// through the method named with each kind.
#[derive(Debug)]
pub enum Command {
    Nothing,
    /// Let the user pick a folder; then [`Editor::folder_picked`].
    PickFolder,
    /// Read the music files in this folder; then [`Editor::files_loaded`].
    LoadFiles(PathBuf),
    /// Write the tag of the file at this position; then [`Editor::saved`].
    SaveFile(usize),
    /// Write the tags of all files; then [`Editor::all_saved`].
    SaveAll,
    /// Search the catalogues for this term with these settings; then
    /// [`Editor::search_results`], or [`Editor::batch_results`] for a batch.
    Search { query: String, settings: UserSettings, batch: bool },
    /// Fetch these thumbnails; then [`Editor::cover_loaded`] for each.
    FetchThumbnails(Vec<ThumbnailJob>),
    /// Fetch the picture at this address; then [`Editor::cover_downloaded`].
    FetchCover(Option<String>),
    /// Keep the editor's settings for the next start.
    StoreSettings,
    CloseWindow,
}

/// What the user sees and works on.
pub struct Editor {
    pub current_page: Page,
    pub last_edit_time: Option<Instant>,
    pub has_unsaved_changes: bool,
    pub current_dir: Option<PathBuf>,
    pub files: Vec<AudioFile>,
    pub selected_file_index: Option<usize>,
    pub search_query: String,
    pub search_results: Vec<MetadataResult>,
    pub search_images: Vec<Option<Vec<u8>>>,
    pub is_searching: bool,
    pub settings: UserSettings,
    pub show_settings: bool,
    pub show_exit_confirmation: bool,
    pub should_exit: bool,
    pub is_loading: bool,
    pub loading_message: String,
}

impl Editor {
    /// The position of the file being edited, if one is selected and there.
    pub open spec fn selected(&self) -> Option<int> {
        match self.selected_file_index {
            Some(index) if index < self.files@.len() => Some(index as int),
            _ => None,
        }
    }

    /// Whether this is an editor at its start: the title screen, no folder,
    /// no file, no search, nothing open, with the given settings.
    pub open spec fn is_fresh(&self, settings: UserSettings) -> bool {
        &&& self.current_page == Page::TitleScreen
        &&& self.last_edit_time is None
        &&& !self.has_unsaved_changes
        &&& self.current_dir is None
        &&& self.files@.len() == 0
        &&& self.selected_file_index is None
        &&& self.search_query@.len() == 0
        &&& self.search_results@.len() == 0
        &&& self.search_images@.len() == 0
        &&& !self.is_searching
        &&& self.settings == settings
        &&& !self.show_settings
        &&& !self.show_exit_confirmation
        &&& !self.should_exit
        &&& !self.is_loading
        &&& self.loading_message@.len() == 0
    }

    pub fn new(settings: UserSettings) -> (editor: Self)
        ensures
            editor.is_fresh(settings),
    {
        Self {
            current_page: Page::TitleScreen,
            last_edit_time: None,
            has_unsaved_changes: false,
            current_dir: None,
            files: Vec::new(),
            selected_file_index: None,
            search_query: String::new(),
            search_results: Vec::new(),
            search_images: Vec::new(),
            is_searching: false,
            settings,
            show_settings: false,
            show_exit_confirmation: false,
            should_exit: false,
            is_loading: false,
            loading_message: String::new(),
        }
    }

    fn selected_index(&self) -> (found: Option<usize>)
        ensures
            match found {
                Some(index) => self.selected() == Some(index as int),
                None => self.selected() is None,
            },
    {
        match self.selected_file_index {
            Some(index) => if index < self.files.len() {
                Some(index)
            } else {
                None
            },
            None => None,
        }
    }

    /// The user asks for a folder: the editor shows that it is busy and has
    /// a folder picked.
    pub fn open_folder(&mut self) -> (command: Command)
        ensures
            command is PickFolder,
            final(self).loading_message@ == "Selecting folder..."@,
            *final(self) == (Editor {
                is_loading: true,
                loading_message: final(self).loading_message,
                ..*old(self)
            }),
    {
        self.is_loading = true;
        self.loading_message = String::from_str("Selecting folder...");
        Command::PickFolder
    }

    /// A folder was picked, or the picking was given up. A picked folder
    /// becomes the open one, the editing screen is shown, and the folder is
    /// read.
    pub fn folder_picked(&mut self, picked: Option<PathBuf>) -> (command: Command)
        ensures
            match picked {
                Some(path) => {
                    &&& command == Command::LoadFiles(path)
                    &&& final(self).loading_message@ == "Scanning files..."@
                    &&& *final(self) == (Editor {
                        current_dir: Some(path),
                        current_page: Page::Editor,
                        loading_message: final(self).loading_message,
                        ..*old(self)
                    })
                },
                None => {
                    &&& command is Nothing
                    &&& *final(self) == (Editor { is_loading: false, ..*old(self) })
                },
            },
    {
        match picked {
            Some(path) => {
                self.current_dir = Some(path.clone());
                self.current_page = Page::Editor;
                self.loading_message = String::from_str("Scanning files...");
                Command::LoadFiles(path)
            },
            None => {
                self.is_loading = false;
                Command::Nothing
            },
        }
    }

    /// The folder was read: its files replace the open ones and none is
    /// selected.
    pub fn files_loaded(&mut self, files: Vec<AudioFile>)
        ensures
            *final(self) == (Editor {
                files,
                is_loading: false,
                selected_file_index: None,
                ..*old(self)
            }),
    {
        self.files = files;
        self.is_loading = false;
        self.selected_file_index = None;
    }

    pub fn switch_to_title(&mut self)
        ensures
            *final(self) == (Editor { current_page: Page::TitleScreen, ..*old(self) }),
    {
        self.current_page = Page::TitleScreen;
    }

    /// What "save" does: it has the selected file written, if there is one.
    pub fn save_pressed(&self) -> (command: Command)
        ensures
            command == self.save_pressed_command(),
    {
        match self.selected_index() {
            Some(index) => Command::SaveFile(index),
            None => Command::Nothing,
        }
    }

    /// The user picks a file. Unsaved edits to the file selected so far are
    /// saved first. The search term becomes the one proposed for the new
    /// file, if the file is there.
    pub fn select_file(&mut self, index: usize) -> (command: Command)
        ensures
            command == if old(self).has_unsaved_changes {
                old(self).save_pressed_command()
            } else {
                Command::Nothing
            },
            final(self).search_query@ == if index < old(self).files@.len() {
                let file = old(self).files@[index as int];
                trimmed(file.artist@ + " "@ + file.title@)
            } else {
                old(self).search_query@
            },
            index >= old(self).files@.len() ==> final(self).search_query == old(self).search_query,
            *final(self) == (Editor {
                selected_file_index: Some(index),
                search_query: final(self).search_query,
                ..*old(self)
            }),
    {
        let command = if self.has_unsaved_changes {
            self.save_pressed()
        } else {
            Command::Nothing
        };
        self.selected_file_index = Some(index);
        if index < self.files.len() {
            self.search_query = search_query_for(&self.files[index]);
        }
        command
    }

    fn note_edit(&mut self)
        ensures
            final(self).last_edit_time is Some,
            *final(self) == (Editor {
                has_unsaved_changes: true,
                last_edit_time: final(self).last_edit_time,
                ..*old(self)
            }),
    {
        self.has_unsaved_changes = true;
        self.last_edit_time = Some(clock::now());
    }

    /// Whether `self` is `before` after an edit that left the selected file
    /// as `edited`: that file is replaced, the edit is noted as unsaved, and
    /// the time of the edit is kept.
    pub open spec fn is_edit_of(&self, before: Editor, index: int, edited: AudioFile) -> bool {
        &&& self.files@ == before.files@.update(index, edited)
        &&& self.last_edit_time is Some
        &&& *self == (Editor {
            files: self.files,
            has_unsaved_changes: true,
            last_edit_time: self.last_edit_time,
            ..before
        })
    }

    /// The user types a title for the selected file. Without a selected file
    /// nothing happens.
    pub fn change_title(&mut self, title: String)
        ensures
            match old(self).selected() {
                Some(index) => final(self).is_edit_of(
                    *old(self),
                    index,
                    AudioFile { title, ..old(self).files@[index] },
                ),
                None => *final(self) == *old(self),
            },
    {
        if let Some(index) = self.selected_index() {
            self.files[index].title = title;
            self.note_edit();
        }
    }

    /// The user types an artist for the selected file.
    pub fn change_artist(&mut self, artist: String)
        ensures
            match old(self).selected() {
                Some(index) => final(self).is_edit_of(
                    *old(self),
                    index,
                    AudioFile { artist, ..old(self).files@[index] },
                ),
                None => *final(self) == *old(self),
            },
    {
        if let Some(index) = self.selected_index() {
            self.files[index].artist = artist;
            self.note_edit();
        }
    }

    /// The user types an album for the selected file.
    pub fn change_album(&mut self, album: String)
        ensures
            match old(self).selected() {
                Some(index) => final(self).is_edit_of(
                    *old(self),
                    index,
                    AudioFile { album, ..old(self).files@[index] },
                ),
                None => *final(self) == *old(self),
            },
    {
        if let Some(index) = self.selected_index() {
            self.files[index].album = album;
            self.note_edit();
        }
    }

    /// The selected file was written, or could not be. Written, the edits
    /// count as saved.
    pub fn saved(&mut self, result: Result<(), String>) -> (notice: Notice)
        ensures
            match result {
                Ok(_) => {
                    &&& notice.says(
                        Status::Success,
                        "Saved"@,
                        "File metadata updated successfully"@,
                    )
                    &&& *final(self) == (Editor {
                        has_unsaved_changes: false,
                        last_edit_time: None,
                        ..*old(self)
                    })
                },
                Err(reason) => {
                    &&& notice.says(Status::Error, "Save Failed"@, reason@)
                    &&& *final(self) == *old(self)
                },
            },
    {
        match result {
            Ok(_) => {
                self.has_unsaved_changes = false;
                self.last_edit_time = None;
                Notice::new(Status::Success, "Saved", "File metadata updated successfully")
            },
            Err(reason) => Notice::new(Status::Error, "Save Failed", reason.as_str()),
        }
    }

    /// The user asks for the files of the open folder to be tagged in one
    /// go: the catalogues are searched for the folder's name. Without a
    /// folder name nothing happens.
    pub fn batch_tag(&mut self, folder_name: Option<String>) -> (command: Command)
        ensures
            match folder_name {
                Some(name) => {
                    &&& command == (Command::Search {
                        query: name,
                        settings: old(self).settings,
                        batch: true,
                    })
                    &&& final(self).loading_message@ == "Batch searching metadata..."@
                    &&& *final(self) == (Editor {
                        is_searching: true,
                        is_loading: true,
                        loading_message: final(self).loading_message,
                        ..*old(self)
                    })
                },
                None => command is Nothing && *final(self) == *old(self),
            },
    {
        match folder_name {
            Some(name) => {
                self.is_searching = true;
                self.is_loading = true;
                self.loading_message = String::from_str("Batch searching metadata...");
                Command::Search { query: name, settings: self.settings.duplicate(), batch: true }
            },
            None => Command::Nothing,
        }
    }

    /// The batch search is over. Its results are laid over the files from
    /// the first on, as [`apply_batch`] does; none at all is reported as
    /// such.
    pub fn batch_results(&mut self, results: Vec<MetadataResult>) -> (notice: Notice)
        ensures
            final(self).files@.len() == old(self).files@.len(),
            *final(self) == (Editor {
                is_searching: false,
                is_loading: false,
                files: final(self).files,
                ..*old(self)
            }),
            if results@.len() == 0 {
                &&& final(self).files == old(self).files
                &&& notice.says(
                    Status::Info,
                    "Batch Info"@,
                    "No results found for batch tagging"@,
                )
            } else {
                let count = if old(self).files@.len() <= results@.len() {
                    old(self).files@.len()
                } else {
                    results@.len()
                };
                &&& forall|i: int|
                    0 <= i < count ==> overlaid(
                        old(self).files@[i],
                        #[trigger] final(self).files@[i],
                        results@[i],
                    )
                &&& forall|i: int|
                    count <= i < old(self).files@.len() ==> #[trigger] final(self).files@[i]
                        == old(self).files@[i]
                &&& notice.says(
                    Status::Success,
                    "Batch Applied"@,
                    "Applied metadata to "@ + decimal_text(count) + " files"@,
                )
            },
    {
        self.is_searching = false;
        self.is_loading = false;
        if results.len() == 0 {
            Notice::new(Status::Info, "Batch Info", "No results found for batch tagging")
        } else {
            let count = apply_batch(&mut self.files, &results);
            let mut body = String::from_str("Applied metadata to ");
            body.append(decimal(count).as_str());
            body.append(" files");
            Notice::new(Status::Success, "Batch Applied", body.as_str())
        }
    }

    pub fn change_query(&mut self, query: String)
        ensures
            *final(self) == (Editor { search_query: query, ..*old(self) }),
    {
        self.search_query = query;
    }

    /// The user starts a search. With an empty term nothing happens;
    /// otherwise the old results are dropped and the catalogues are
    /// searched.
    pub fn search_pressed(&mut self) -> (command: Command)
        ensures
            if old(self).search_query@.len() == 0 {
                command is Nothing && *final(self) == *old(self)
            } else {
                &&& command == (Command::Search {
                    query: old(self).search_query,
                    settings: old(self).settings,
                    batch: false,
                })
                &&& final(self).search_results@.len() == 0
                &&& final(self).search_images@.len() == 0
                &&& *final(self) == (Editor {
                    is_searching: true,
                    search_results: final(self).search_results,
                    search_images: final(self).search_images,
                    ..*old(self)
                })
            },
    {
        if self.search_query.as_str().is_empty() {
            Command::Nothing
        } else {
            self.is_searching = true;
            self.search_results.clear();
            self.search_images.clear();
            Command::Search {
                query: self.search_query.clone(),
                settings: self.settings.duplicate(),
                batch: false,
            }
        }
    }

    /// The search is over. Its results are shown, each with an empty place
    /// for its thumbnail, and the thumbnails of those that name a cover are
    /// fetched. No result at all is reported as such.
    pub fn search_results(&mut self, results: Vec<MetadataResult>) -> (reaction: (
        Command,
        Option<Notice>,
    ))
        ensures
            final(self).search_images@.len() == results@.len(),
            forall|i: int| 0 <= i < results@.len() ==> final(self).search_images@[i] is None,
            *final(self) == (Editor {
                is_searching: false,
                search_results: results,
                search_images: final(self).search_images,
                ..*old(self)
            }),
            if results@.len() == 0 {
                &&& reaction.0 is Nothing
                &&& reaction.1 matches Some(notice) && notice.says(
                    Status::Info,
                    "No Results"@,
                    "Try a different search term"@,
                )
            } else {
                &&& reaction.0 matches Command::FetchThumbnails(jobs) && jobs.deep_view()
                    == jobs_for(results.deep_view())
                &&& reaction.1 is None
            },
    {
        self.is_searching = false;
        self.search_images = empty_slots(results.len());
        let reaction = if results.len() == 0 {
            (
                Command::Nothing,
                Some(Notice::new(Status::Info, "No Results", "Try a different search term")),
            )
        } else {
            (Command::FetchThumbnails(thumbnail_jobs(&results)), None)
        };
        self.search_results = results;
        reaction
    }

    /// A thumbnail was made, or could not be: see [`store_thumbnail`].
    pub fn cover_loaded(&mut self, index: usize, made: Option<Vec<u8>>)
        ensures
            final(self).search_images@ == {
                let before = old(self).search_images@;
                if made is Some && index < before.len() {
                    before.update(index as int, made)
                } else {
                    before
                }
            },
            *final(self) == (Editor { search_images: final(self).search_images, ..*old(self) }),
    {
        store_thumbnail(&mut self.search_images, index, made);
    }

    pub fn toggle_settings(&mut self)
        ensures
            *final(self) == (Editor { show_settings: !old(self).show_settings, ..*old(self) }),
    {
        self.show_settings = !self.show_settings;
    }

    pub fn change_settings(&mut self, settings: UserSettings)
        ensures
            *final(self) == (Editor { settings, ..*old(self) }),
    {
        self.settings = settings;
    }

    /// The user keeps the settings: they are stored and their page closes.
    pub fn save_settings(&mut self) -> (reaction: (Command, Notice))
        ensures
            reaction.0 is StoreSettings,
            reaction.1.says(Status::Success, "Settings Saved"@, "Configuration updated"@),
            *final(self) == (Editor { show_settings: false, ..*old(self) }),
    {
        self.show_settings = false;
        (
            Command::StoreSettings,
            Notice::new(Status::Success, "Settings Saved", "Configuration updated"),
        )
    }

    /// The user takes a search result for the selected file: its texts go
    /// into the file and its cover is fetched. Without a selected file
    /// nothing happens.
    pub fn apply_metadata(&mut self, record: MetadataResult) -> (command: Command)
        ensures
            match old(self).selected() {
                Some(index) => {
                    &&& command == Command::FetchCover(record.cover_url)
                    &&& final(self).files@.len() == old(self).files@.len()
                    &&& overlaid(old(self).files@[index], final(self).files@[index], record)
                    &&& forall|i: int|
                        0 <= i < old(self).files@.len() && i != index ==> {
                            #[trigger] final(self).files@[i] == old(self).files@[i]
                        }
                    &&& *final(self) == (Editor { files: final(self).files, ..*old(self) })
                },
                None => command is Nothing && *final(self) == *old(self),
            },
    {
        match self.selected_index() {
            Some(index) => {
                let file = &mut self.files[index];
                file.apply(&record);
                Command::FetchCover(record.cover_url)
            },
            None => Command::Nothing,
        }
    }

    /// A cover was fetched, or could not be. A fetched cover becomes the
    /// selected file's picture; without a selected file it is dropped without
    /// a word.
    pub fn cover_downloaded(&mut self, result: Result<Vec<u8>, String>) -> (notice: Option<
        Notice,
    >)
        ensures
            match result {
                Ok(bytes) => match old(self).selected() {
                    Some(index) => {
                        &&& notice matches Some(told) && told.says(
                            Status::Success,
                            "Cover Updated"@,
                            "New cover art downloaded and applied."@,
                        )
                        &&& final(self).files@ == old(self).files@.update(
                            index,
                            AudioFile { picture_data: Some(bytes), ..old(self).files@[index] },
                        )
                        &&& *final(self) == (Editor { files: final(self).files, ..*old(self) })
                    },
                    None => notice is None && *final(self) == *old(self),
                },
                Err(reason) => {
                    &&& notice matches Some(told) && told.says(
                        Status::Error,
                        "Cover Error"@,
                        "Failed to download cover: "@ + reason@,
                    )
                    &&& *final(self) == *old(self)
                },
            },
    {
        match result {
            Ok(bytes) => match self.selected_index() {
                Some(index) => {
                    self.files[index].picture_data = Some(bytes);
                    Some(
                        Notice::new(
                            Status::Success,
                            "Cover Updated",
                            "New cover art downloaded and applied.",
                        ),
                    )
                },
                None => None,
            },
            Err(reason) => {
                let mut body = String::from_str("Failed to download cover: ");
                body.append(reason.as_str());
                Some(Notice::new(Status::Error, "Cover Error", body.as_str()))
            },
        }
    }

    /// All files were written, as far as they could be. Whatever came of it,
    /// the edits count as saved; the window closes if the save was part of
    /// leaving.
    pub fn all_saved(&mut self, saved: usize, failed: usize) -> (reaction: (
        Command,
        Option<Notice>,
    ))
        ensures
            *final(self) == (Editor { has_unsaved_changes: false, ..*old(self) }),
            reaction.0 == if old(self).should_exit {
                Command::CloseWindow
            } else {
                Command::Nothing
            },
            if failed > 0 {
                reaction.1 matches Some(notice) && notice.says(
                    Status::Error,
                    "Save Errors"@,
                    "Saved: "@ + decimal_text(saved as nat) + ", Failed: "@ + decimal_text(
                        failed as nat,
                    ) + ". Check file permissions."@,
                )
            } else if saved > 0 {
                reaction.1 matches Some(notice) && notice.says(
                    Status::Success,
                    "All Saved"@,
                    "Successfully saved "@ + decimal_text(saved as nat) + " files."@,
                )
            } else {
                reaction.1 is None
            },
    {
        let notice = match save_report(saved, failed) {
            SaveReport::AllSaved(count) => {
                let mut body = String::from_str("Successfully saved ");
                body.append(decimal(count).as_str());
                body.append(" files.");
                Some(Notice::new(Status::Success, "All Saved", body.as_str()))
            },
            SaveReport::Failures { saved, failed } => {
                let mut body = String::from_str("Saved: ");
                body.append(decimal(saved).as_str());
                body.append(", Failed: ");
                body.append(decimal(failed).as_str());
                body.append(". Check file permissions.");
                Some(Notice::new(Status::Error, "Save Errors", body.as_str()))
            },
            SaveReport::Silent => None,
        };
        self.has_unsaved_changes = false;
        let command = if self.should_exit {
            Command::CloseWindow
        } else {
            Command::Nothing
        };
        (command, notice)
    }

    /// The user closes the window. With unsaved edits the editor asks first;
    /// without, the window closes.
    pub fn close_requested(&mut self) -> (command: Command)
        ensures
            if old(self).has_unsaved_changes {
                &&& command is Nothing
                &&& *final(self) == (Editor { show_exit_confirmation: true, ..*old(self) })
            } else {
                command is CloseWindow && *final(self) == *old(self)
            },
    {
        if self.has_unsaved_changes {
            self.show_exit_confirmation = true;
            Command::Nothing
        } else {
            Command::CloseWindow
        }
    }

    /// The user answers the question asked on closing: leave after saving
    /// all files, or leave at once.
    pub fn confirm_exit(&mut self, save: bool) -> (command: Command)
        ensures
            if save {
                &&& command is SaveAll
                &&& *final(self) == (Editor {
                    show_exit_confirmation: false,
                    should_exit: true,
                    ..*old(self)
                })
            } else {
                &&& command is CloseWindow
                &&& *final(self) == (Editor { show_exit_confirmation: false, ..*old(self) })
            },
    {
        self.show_exit_confirmation = false;
        if save {
            self.should_exit = true;
            Command::SaveAll
        } else {
            Command::CloseWindow
        }
    }

    pub fn cancel_exit(&mut self)
        ensures
            *final(self) == (Editor { show_exit_confirmation: false, ..*old(self) }),
    {
        self.show_exit_confirmation = false;
    }

    /// What a tick asks for when the last edit is this many nanoseconds
    /// old: the save that [`Editor::save_pressed`] asks for if the edits are
    /// due by [`autosave_due`], and nothing otherwise.
    pub open spec fn autosave_command(&self, since_last_edit_ns: Option<u128>) -> Command {
        let due = match since_last_edit_ns {
            Some(age) => self.has_unsaved_changes && age > AUTOSAVE_DELAY_NS,
            None => false,
        };
        if due {
            self.save_pressed_command()
        } else {
            Command::Nothing
        }
    }

    /// Time has passed, and the last edit is `since_last_edit_ns` old, or
    /// there was no edit: edits that are due are saved as if the user had
    /// asked for it.
    pub fn tick_after(&self, since_last_edit_ns: Option<u128>) -> (command: Command)
        ensures
            command == self.autosave_command(since_last_edit_ns),
    {
        if autosave_due(self.has_unsaved_changes, since_last_edit_ns) {
            self.save_pressed()
        } else {
            Command::Nothing
        }
    }

    /// Time has passed. Edits that are due, by [`autosave_due`] and the
    /// machine's clock, are saved as if the user had asked for it; without
    /// unsaved edits nothing ever is. The clock gives the age of the last
    /// edit, and [`Editor::tick_after`] does the deciding.
    pub fn tick(&self) -> (command: Command)
        ensures
            command is Nothing || command == self.save_pressed_command(),
            !self.has_unsaved_changes || self.last_edit_time is None ==> command is Nothing,
    {
        let age = match &self.last_edit_time {
            Some(moment) => Some(clock::nanos_since(moment)),
            None => None,
        };
        self.tick_after(age)
    }

    /// What [`Editor::save_pressed`] asks for.
    pub open spec fn save_pressed_command(&self) -> Command {
        match self.selected() {
            Some(index) => Command::SaveFile(index as usize),
            None => Command::Nothing,
        }
    }
}

} // verus!
