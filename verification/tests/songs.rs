use music_player::fs_path::FsPath;
use music_player::song::{Song, SongBuilder, TagData};
use music_player::CoreError;

fn tagged(title: Option<&str>, track: Option<u16>) -> TagData {
    TagData {
        title: title.map(|s| s.to_string()),
        artist: Some("Artist".to_string()),
        album: Some("Album".to_string()),
        track_number: track,
    }
}

fn song_path() -> FsPath {
    FsPath::from_components(vec!["music".to_string(), "a.mp3".to_string()])
}

#[test]
fn a_song_needs_a_title() {
    let r = SongBuilder::new().with_tags(tagged(None, Some(1)), None, &song_path());
    assert!(matches!(r, Err(CoreError::MetadataError)));
}

#[test]
fn a_tagged_song_carries_its_fields() {
    let song = SongBuilder::new()
        .with_tags(tagged(Some("A Song"), Some(7)), Some(61), &song_path())
        .unwrap()
        .build();
    assert_eq!(song.title(), "A Song");
    assert_eq!(song.track_number(), Ok(7));
    assert_eq!(song.get_file_name(), "a.mp3");
    assert_eq!(song.get_path().to_text(), "/music/a.mp3");
    assert_eq!(song.duration_in_minutes_and_seconds(), Ok("1m 1s".to_string()));
}

#[test]
fn a_missing_track_number_is_an_error() {
    let song = SongBuilder::new()
        .with_tags(tagged(Some("A Song"), None), None, &song_path())
        .unwrap()
        .build();
    assert_eq!(song.track_number(), Err(CoreError::MetadataError));
}

#[test]
fn duration_formats_minutes_and_seconds() {
    let base = SongBuilder::new().with_tags(tagged(Some("T"), None), None, &song_path()).unwrap();
    let song = base.duration(Some(125)).build();
    assert_eq!(song.duration_in_minutes_and_seconds(), Ok("2m 5s".to_string()));
}

#[test]
fn duration_of_a_full_hour_stays_in_minutes() {
    let song = SongBuilder::new()
        .with_tags(tagged(Some("T"), None), Some(3600), &song_path())
        .unwrap()
        .build();
    assert_eq!(song.duration_in_minutes_and_seconds(), Ok("60m 0s".to_string()));
}

#[test]
fn a_missing_duration_is_an_error() {
    let song = SongBuilder::new()
        .with_tags(tagged(Some("T"), Some(1)), None, &song_path())
        .unwrap()
        .build();
    assert_eq!(song.duration_in_minutes_and_seconds(), Err(CoreError::MetadataError));
}

#[test]
fn reading_tags_of_a_missing_file_fails() {
    let r = SongBuilder::new().from_path(&song_path());
    assert!(matches!(r, Err(CoreError::IoError)));
}

#[test]
fn the_default_builder_starts_with_placeholders() {
    let song = SongBuilder::new().build();
    assert_eq!(song.title(), "");
    assert_eq!(song.track_number(), Ok(0));
    assert_eq!(song.duration_in_minutes_and_seconds(), Ok("0m 0s".to_string()));
}

#[test]
fn a_fresh_song_record_has_no_fields() {
    let song = Song::new().build();
    assert_eq!(song.title(), "");
    assert_eq!(song.track_number(), Err(CoreError::MetadataError));
    assert_eq!(song.get_file_name(), "");
}
