use navitag::api::{MetadataResult, Source};
use navitag::audio::{AudioFile, FileStem};
use navitag::editor::{Command, Editor, Page};
use navitag::settings::UserSettings;
use navitag::toast::Status;
use std::path::PathBuf;

fn song(name: &str) -> AudioFile {
    let mut file = AudioFile::from_tag(PathBuf::from(name), FileStem::Text(name.to_string()), None, None);
    file.artist = format!("{} artist", name);
    file
}

fn found(title: &str, cover: Option<&str>) -> MetadataResult {
    MetadataResult {
        title: title.to_string(),
        artist: "A".to_string(),
        album: "L".to_string(),
        cover_url: cover.map(|u| u.to_string()),
        source: Source::Genius,
    }
}

fn open_editor(names: &[&str]) -> Editor {
    let mut editor = Editor::new(UserSettings::default());
    editor.open_folder();
    editor.folder_picked(Some(PathBuf::from("/music/Album X")));
    editor.files_loaded(names.iter().map(|n| song(n)).collect());
    editor
}

#[test]
fn editor_starts_on_the_title_screen() {
    let editor = Editor::new(UserSettings::default());
    assert_eq!(editor.current_page, Page::TitleScreen);
    assert!(editor.files.is_empty());
    assert_eq!(editor.selected_file_index, None);
    assert!(!editor.has_unsaved_changes);
    assert!(editor.last_edit_time.is_none());
    assert!(editor.current_dir.is_none());
    assert_eq!(editor.search_query, "");
    assert!(!editor.is_loading && !editor.is_searching);
    assert!(!editor.show_settings && !editor.show_exit_confirmation && !editor.should_exit);
    assert_eq!(editor.settings, UserSettings::default());
}

#[test]
fn editor_opens_a_folder() {
    let mut editor = Editor::new(UserSettings::default());
    assert!(matches!(editor.open_folder(), Command::PickFolder));
    assert!(editor.is_loading);
    assert_eq!(editor.loading_message, "Selecting folder...");
    match editor.folder_picked(Some(PathBuf::from("/music"))) {
        Command::LoadFiles(path) => assert_eq!(path, PathBuf::from("/music")),
        other => panic!("unexpected command {:?}", other),
    }
    assert_eq!(editor.current_page, Page::Editor);
    assert_eq!(editor.current_dir, Some(PathBuf::from("/music")));
    assert_eq!(editor.loading_message, "Scanning files...");
    assert!(editor.is_loading);
    editor.select_file(0);
    editor.files_loaded(vec![song("a"), song("b")]);
    assert!(!editor.is_loading);
    assert_eq!(editor.files.len(), 2);
    assert_eq!(editor.selected_file_index, None);
    editor.switch_to_title();
    assert_eq!(editor.current_page, Page::TitleScreen);
}

#[test]
fn editor_giving_up_the_folder_ends_the_wait() {
    let mut editor = Editor::new(UserSettings::default());
    editor.open_folder();
    assert!(matches!(editor.folder_picked(None), Command::Nothing));
    assert!(!editor.is_loading);
    assert_eq!(editor.current_page, Page::TitleScreen);
    assert!(editor.current_dir.is_none());
}

#[test]
fn editor_selecting_a_file_proposes_a_search() {
    let mut editor = open_editor(&["one", "two"]);
    assert!(matches!(editor.select_file(1), Command::Nothing));
    assert_eq!(editor.selected_file_index, Some(1));
    assert_eq!(editor.search_query, "two artist two");
    assert!(matches!(editor.select_file(7), Command::Nothing));
    assert_eq!(editor.selected_file_index, Some(7));
    assert_eq!(editor.search_query, "two artist two");
}

#[test]
fn editor_edits_mark_the_file_unsaved() {
    let mut editor = open_editor(&["one", "two"]);
    editor.change_title("ignored".to_string());
    assert_eq!(editor.files[0].title, "one");
    assert!(!editor.has_unsaved_changes);

    editor.select_file(1);
    editor.change_title("T".to_string());
    assert!(editor.has_unsaved_changes);
    assert!(editor.last_edit_time.is_some());
    editor.change_artist("A".to_string());
    editor.change_album("L".to_string());
    assert_eq!(editor.files[1].title, "T");
    assert_eq!(editor.files[1].artist, "A");
    assert_eq!(editor.files[1].album, "L");
    assert_eq!(editor.files[0].title, "one");
}

#[test]
fn editor_edits_without_a_file_there_do_nothing() {
    let mut editor = open_editor(&["one"]);
    editor.select_file(3);
    editor.change_title("T".to_string());
    editor.change_artist("A".to_string());
    editor.change_album("L".to_string());
    assert!(!editor.has_unsaved_changes);
    assert_eq!(editor.files[0].title, "one");
    assert!(matches!(editor.save_pressed(), Command::Nothing));
    assert!(matches!(editor.apply_metadata(found("x", None)), Command::Nothing));
    assert!(editor.cover_downloaded(Ok(vec![1])).is_none());
}

#[test]
fn editor_saves_the_selected_file() {
    let mut editor = open_editor(&["one", "two"]);
    assert!(matches!(editor.save_pressed(), Command::Nothing));
    editor.select_file(1);
    editor.change_title("T".to_string());
    assert!(matches!(editor.save_pressed(), Command::SaveFile(1)));
    let notice = editor.saved(Ok(()));
    assert_eq!(notice.status, Status::Success);
    assert_eq!(notice.title, "Saved");
    assert_eq!(notice.body, "File metadata updated successfully");
    assert!(!editor.has_unsaved_changes);
    assert!(editor.last_edit_time.is_none());
}

#[test]
fn editor_failed_save_keeps_the_edits_unsaved() {
    let mut editor = open_editor(&["one"]);
    editor.select_file(0);
    editor.change_title("T".to_string());
    let notice = editor.saved(Err("disk full".to_string()));
    assert_eq!(notice.status, Status::Error);
    assert_eq!(notice.title, "Save Failed");
    assert_eq!(notice.body, "disk full");
    assert!(editor.has_unsaved_changes);
    assert!(editor.last_edit_time.is_some());
}

#[test]
fn editor_selecting_another_file_saves_the_edited_one() {
    let mut editor = open_editor(&["one", "two"]);
    editor.select_file(0);
    editor.change_title("T".to_string());
    assert!(matches!(editor.select_file(1), Command::SaveFile(0)));
    assert_eq!(editor.selected_file_index, Some(1));
}

#[test]
fn editor_tick_saves_only_old_edits() {
    let mut editor = open_editor(&["one"]);
    assert!(matches!(editor.tick(), Command::Nothing));
    editor.select_file(0);
    editor.change_title("T".to_string());
    assert!(matches!(editor.tick(), Command::Nothing));
    editor.last_edit_time = std::time::Instant::now().checked_sub(std::time::Duration::from_secs(2));
    assert!(editor.last_edit_time.is_some());
    assert!(matches!(editor.tick(), Command::SaveFile(0)));
    editor.saved(Ok(()));
    assert!(matches!(editor.tick(), Command::Nothing));
}

#[test]
fn editor_search_needs_a_term() {
    let mut editor = open_editor(&["one"]);
    assert!(matches!(editor.search_pressed(), Command::Nothing));
    assert!(!editor.is_searching);
    editor.change_query("daft punk".to_string());
    editor.search_results(vec![found("old", None)]);
    match editor.search_pressed() {
        Command::Search { query, settings, batch } => {
            assert_eq!(query, "daft punk");
            assert_eq!(settings, UserSettings::default());
            assert!(!batch);
        }
        other => panic!("unexpected command {:?}", other),
    }
    assert!(editor.is_searching);
    assert!(editor.search_results.is_empty());
    assert!(editor.search_images.is_empty());
}

#[test]
fn editor_search_results_ask_for_thumbnails() {
    let mut editor = open_editor(&["one"]);
    editor.change_query("x".to_string());
    editor.search_pressed();
    let (command, notice) =
        editor.search_results(vec![found("a", Some("http://a")), found("b", None)]);
    assert!(notice.is_none());
    match command {
        Command::FetchThumbnails(jobs) => {
            assert_eq!(jobs.len(), 1);
            assert_eq!(jobs[0].index, 0);
            assert_eq!(jobs[0].url, "http://a");
        }
        other => panic!("unexpected command {:?}", other),
    }
    assert!(!editor.is_searching);
    assert_eq!(editor.search_results.len(), 2);
    assert_eq!(editor.search_images, vec![None, None]);
    editor.cover_loaded(0, Some(vec![1, 2]));
    editor.cover_loaded(1, None);
    editor.cover_loaded(2, Some(vec![3]));
    assert_eq!(editor.search_images, vec![Some(vec![1, 2]), None]);
}

#[test]
fn editor_search_without_results_says_so() {
    let mut editor = open_editor(&["one"]);
    let (command, notice) = editor.search_results(vec![]);
    assert!(matches!(command, Command::Nothing));
    let notice = notice.expect("a notice");
    assert_eq!(notice.status, Status::Info);
    assert_eq!(notice.title, "No Results");
    assert_eq!(notice.body, "Try a different search term");
}

#[test]
fn editor_batch_tag_searches_for_the_folder_name() {
    let mut editor = open_editor(&["one", "two", "three"]);
    assert!(matches!(editor.batch_tag(None), Command::Nothing));
    assert!(!editor.is_searching);
    match editor.batch_tag(Some("Album X".to_string())) {
        Command::Search { query, batch, .. } => {
            assert_eq!(query, "Album X");
            assert!(batch);
        }
        other => panic!("unexpected command {:?}", other),
    }
    assert!(editor.is_searching && editor.is_loading);
    assert_eq!(editor.loading_message, "Batch searching metadata...");

    let notice = editor.batch_results(vec![found("a", None), found("b", None)]);
    assert_eq!(notice.status, Status::Success);
    assert_eq!(notice.title, "Batch Applied");
    assert_eq!(notice.body, "Applied metadata to 2 files");
    assert!(!editor.is_searching && !editor.is_loading);
    assert_eq!(editor.files[0].title, "a");
    assert_eq!(editor.files[1].title, "b");
    assert_eq!(editor.files[2].title, "three");
    assert!(!editor.has_unsaved_changes);
}

#[test]
fn editor_batch_without_results_says_so() {
    let mut editor = open_editor(&["one"]);
    editor.batch_tag(Some("Album X".to_string()));
    let notice = editor.batch_results(vec![]);
    assert_eq!(notice.status, Status::Info);
    assert_eq!(notice.title, "Batch Info");
    assert_eq!(notice.body, "No results found for batch tagging");
    assert_eq!(editor.files[0].title, "one");
    assert!(!editor.is_searching && !editor.is_loading);
}

#[test]
fn editor_batch_counts_in_decimal() {
    let names: Vec<String> = (0..12).map(|i| format!("f{}", i)).collect();
    let refs: Vec<&str> = names.iter().map(|n| n.as_str()).collect();
    let mut editor = open_editor(&refs);
    let results: Vec<MetadataResult> = (0..120).map(|i| found(&format!("r{}", i), None)).collect();
    let notice = editor.batch_results(results);
    assert_eq!(notice.body, "Applied metadata to 12 files");
    assert_eq!(editor.files[11].title, "r11");
}

#[test]
fn editor_applies_a_result_and_fetches_its_cover() {
    let mut editor = open_editor(&["one", "two"]);
    editor.select_file(1);
    match editor.apply_metadata(found("T", Some("http://c"))) {
        Command::FetchCover(url) => assert_eq!(url.as_deref(), Some("http://c")),
        other => panic!("unexpected command {:?}", other),
    }
    assert_eq!(editor.files[1].title, "T");
    assert_eq!(editor.files[1].artist, "A");
    assert_eq!(editor.files[1].album, "L");
    assert_eq!(editor.files[0].title, "one");
    assert!(matches!(editor.apply_metadata(found("U", None)), Command::FetchCover(None)));

    let notice = editor.cover_downloaded(Ok(vec![9, 9])).expect("a notice");
    assert_eq!(notice.status, Status::Success);
    assert_eq!(notice.title, "Cover Updated");
    assert_eq!(notice.body, "New cover art downloaded and applied.");
    assert_eq!(editor.files[1].picture_data, Some(vec![9, 9]));
    assert_eq!(editor.files[0].picture_data, None);

    let failed = editor.cover_downloaded(Err("No URL provided".to_string())).expect("a notice");
    assert_eq!(failed.status, Status::Error);
    assert_eq!(failed.title, "Cover Error");
    assert_eq!(failed.body, "Failed to download cover: No URL provided");
    assert_eq!(editor.files[1].picture_data, Some(vec![9, 9]));
}

#[test]
fn editor_settings_page() {
    let mut editor = Editor::new(UserSettings::default());
    editor.toggle_settings();
    assert!(editor.show_settings);
    let changed = UserSettings { enable_genius: true, ..UserSettings::default() };
    editor.change_settings(changed.clone());
    assert_eq!(editor.settings, changed);
    let (command, notice) = editor.save_settings();
    assert!(matches!(command, Command::StoreSettings));
    assert_eq!(notice.status, Status::Success);
    assert_eq!(notice.title, "Settings Saved");
    assert_eq!(notice.body, "Configuration updated");
    assert!(!editor.show_settings);
    editor.toggle_settings();
    editor.toggle_settings();
    assert!(!editor.show_settings);
}

#[test]
fn editor_reports_a_save_of_all_files() {
    let mut editor = open_editor(&["one", "two"]);
    editor.select_file(0);
    editor.change_title("T".to_string());
    let (command, notice) = editor.all_saved(2, 0);
    assert!(matches!(command, Command::Nothing));
    let notice = notice.expect("a notice");
    assert_eq!(notice.status, Status::Success);
    assert_eq!(notice.title, "All Saved");
    assert_eq!(notice.body, "Successfully saved 2 files.");
    assert!(!editor.has_unsaved_changes);

    editor.change_title("U".to_string());
    let (_, notice) = editor.all_saved(10, 305);
    let notice = notice.expect("a notice");
    assert_eq!(notice.status, Status::Error);
    assert_eq!(notice.title, "Save Errors");
    assert_eq!(notice.body, "Saved: 10, Failed: 305. Check file permissions.");
    assert!(!editor.has_unsaved_changes);

    let (_, none) = editor.all_saved(0, 0);
    assert!(none.is_none());
}

#[test]
fn editor_asks_before_closing_with_unsaved_edits() {
    let mut editor = open_editor(&["one"]);
    assert!(matches!(editor.close_requested(), Command::CloseWindow));
    assert!(!editor.show_exit_confirmation);

    editor.select_file(0);
    editor.change_title("T".to_string());
    assert!(matches!(editor.close_requested(), Command::Nothing));
    assert!(editor.show_exit_confirmation);
    editor.cancel_exit();
    assert!(!editor.show_exit_confirmation);

    editor.close_requested();
    assert!(matches!(editor.confirm_exit(false), Command::CloseWindow));
    assert!(!editor.show_exit_confirmation);
    assert!(!editor.should_exit);
}

#[test]
fn editor_saves_everything_before_leaving() {
    let mut editor = open_editor(&["one"]);
    editor.select_file(0);
    editor.change_title("T".to_string());
    editor.close_requested();
    assert!(matches!(editor.confirm_exit(true), Command::SaveAll));
    assert!(editor.should_exit);
    assert!(!editor.show_exit_confirmation);
    let (command, notice) = editor.all_saved(1, 0);
    assert!(matches!(command, Command::CloseWindow));
    assert_eq!(notice.expect("a notice").body, "Successfully saved 1 files.");
}

#[test]
fn editor_tick_after_goes_by_the_age_of_the_last_edit() {
    let mut editor = open_editor(&["one", "two"]);
    assert!(matches!(editor.tick_after(Some(5_000_000_000)), Command::Nothing));
    editor.select_file(1);
    editor.change_title("T".to_string());
    assert!(matches!(editor.tick_after(None), Command::Nothing));
    assert!(matches!(editor.tick_after(Some(0)), Command::Nothing));
    assert!(matches!(editor.tick_after(Some(1_000_000_000)), Command::Nothing));
    assert!(matches!(editor.tick_after(Some(1_000_000_001)), Command::SaveFile(1)));
    assert!(matches!(editor.tick_after(Some(u128::MAX)), Command::SaveFile(1)));
    editor.select_file(9);
    assert!(matches!(editor.tick_after(Some(1_000_000_001)), Command::Nothing));
    editor.select_file(0);
    editor.saved(Ok(()));
    assert!(matches!(editor.tick_after(Some(1_000_000_001)), Command::Nothing));
}
