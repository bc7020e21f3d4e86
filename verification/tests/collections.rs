use music_player::fs_path::FsPath;
use music_player::playlist::PlaylistBuilder;
use music_player::queue::Queue;
use music_player::song::{Song, SongBuilder, TagData};
use music_player::CoreError;

fn titled(title: &str) -> Song {
    let tags = TagData {
        title: Some(title.to_string()),
        artist: None,
        album: None,
        track_number: None,
    };
    let path = FsPath::from_components(vec!["music".to_string(), format!("{}.mp3", title)]);
    SongBuilder::new().with_tags(tags, None, &path).unwrap().build()
}

#[test]
fn the_queue_pops_from_the_back() {
    let mut q = Queue::new();
    assert_eq!(q.playing, 0);
    q.add(titled("one"));
    q.add(titled("two"));
    let popped = q.next().unwrap();
    assert_eq!(popped.title(), "two");
    let popped = q.next().unwrap();
    assert_eq!(popped.title(), "one");
    assert!(q.next().is_none());
}

#[test]
fn next_clone_peeks_at_the_front() {
    let mut q = Queue::new();
    q.add(titled("one"));
    q.add(titled("two"));
    let peeked = q.next_clone().unwrap();
    assert_eq!(peeked.title(), "one");
    assert_eq!(q.queue.len(), 2);
}

#[test]
fn an_empty_queue_has_nothing_to_play() {
    let mut q = Queue::new();
    assert!(q.next().is_none());
    assert!(q.next_clone().is_none());
}

#[test]
fn a_playlist_needs_a_readable_directory() {
    let dir = FsPath::from_components(vec!["music".to_string()]);
    let r = PlaylistBuilder::new().from_path(&dir, None);
    assert!(matches!(r, Err(CoreError::IoError)));
}

#[test]
fn a_playlist_passes_over_unreadable_songs() {
    let dir = FsPath::from_components(vec!["no".to_string(), "albums".to_string()]);
    let names = vec!["Track01.mp3".to_string(), "Track02.mp3".to_string()];
    let playlist = PlaylistBuilder::new().from_path(&dir, Some(names)).unwrap().build();
    assert!(playlist.songs().is_empty());
}

#[test]
fn an_empty_playlist_builds() {
    let playlist = PlaylistBuilder::new().sort_by_track_number().build();
    assert!(playlist.songs().is_empty());
}
