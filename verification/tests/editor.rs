use navitag::api::{MetadataResult, Source};
use navitag::audio::{AudioFile, FileStem};
use navitag::editor::{apply_batch, autosave_due, save_report, search_query_for, SaveReport};
use std::path::PathBuf;

fn file(name: &str) -> AudioFile {
    AudioFile::from_tag(PathBuf::from(name), FileStem::Text(name.to_string()), None, None)
}

fn record(title: &str) -> MetadataResult {
    MetadataResult {
        title: title.to_string(),
        artist: format!("{} artist", title),
        album: format!("{} album", title),
        cover_url: None,
        source: Source::AppleMusic,
    }
}

#[test]
fn query_joins_artist_and_title() {
    let mut song = file("x");
    song.artist = "Daft Punk".to_string();
    song.title = "Around the World".to_string();
    assert_eq!(search_query_for(&song), "Daft Punk Around the World");
}

#[test]
fn query_has_no_space_at_the_ends() {
    let mut song = file("x");
    song.artist = String::new();
    song.title = "Title".to_string();
    assert_eq!(search_query_for(&song), "Title");
    song.artist = "Artist".to_string();
    song.title = String::new();
    assert_eq!(search_query_for(&song), "Artist");
    song.artist = String::new();
    assert_eq!(search_query_for(&song), "");
    song.artist = "  a ".to_string();
    song.title = " b\t".to_string();
    assert_eq!(search_query_for(&song), "a   b");
}

#[test]
fn batch_covers_the_shorter_list() {
    let mut files = vec![file("1"), file("2"), file("3")];
    let count = apply_batch(&mut files, &vec![record("a"), record("b")]);
    assert_eq!(count, 2);
    assert_eq!(files[0].title, "a");
    assert_eq!(files[0].artist, "a artist");
    assert_eq!(files[0].album, "a album");
    assert_eq!(files[1].title, "b");
    assert_eq!(files[2].title, "3");
    assert_eq!(files[2].artist, "Unknown Artist");
    assert_eq!(files[0].path, PathBuf::from("1"));

    let mut few = vec![file("1")];
    assert_eq!(apply_batch(&mut few, &vec![record("a"), record("b"), record("c")]), 1);
    assert_eq!(few[0].title, "a");
}

#[test]
fn batch_with_an_empty_list_changes_nothing() {
    let mut files = vec![file("1")];
    assert_eq!(apply_batch(&mut files, &vec![]), 0);
    assert_eq!(files[0].title, "1");
    let mut none: Vec<AudioFile> = vec![];
    assert_eq!(apply_batch(&mut none, &vec![record("a")]), 0);
}

#[test]
fn autosave_waits_a_second() {
    assert!(!autosave_due(true, Some(0)));
    assert!(!autosave_due(true, Some(999_999_999)));
    assert!(!autosave_due(true, Some(1_000_000_000)));
    assert!(autosave_due(true, Some(1_000_000_001)));
    assert!(autosave_due(true, Some(1_000_500_000)));
    assert!(!autosave_due(false, Some(5_000_000_000)));
    assert!(!autosave_due(true, None));
    assert!(!autosave_due(false, None));
}

#[test]
fn save_reports() {
    assert_eq!(save_report(0, 0), SaveReport::Silent);
    assert_eq!(save_report(3, 0), SaveReport::AllSaved(3));
    assert_eq!(save_report(2, 1), SaveReport::Failures { saved: 2, failed: 1 });
    assert_eq!(save_report(0, 4), SaveReport::Failures { saved: 0, failed: 4 });
}
