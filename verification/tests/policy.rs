use music_player::browser_list::{sort_by_track_number, DirEntry, FileType};
use music_player::fs_path::FsPath;
use music_player::ordering::order_by_tracks;

fn entry(name: &str) -> DirEntry {
    DirEntry { name: name.to_string(), kind: FileType::FILE }
}

fn names_of(v: &Vec<DirEntry>) -> Vec<String> {
    let mut out = Vec::new();
    for e in v {
        out.push(e.name.clone());
    }
    out
}

#[test]
fn ordering_sorts_ascending_by_track_number() {
    let items = vec![entry("Track03.mp3"), entry("Track01.mp3"), entry("Track02.mp3")];
    let tracks = vec![Some(3u16), Some(1), Some(2)];
    let r = order_by_tracks(items, &tracks);
    assert_eq!(names_of(&r), vec!["Track01.mp3", "Track02.mp3", "Track03.mp3"]);
}

#[test]
fn ordering_is_deterministic_regardless_of_input_order() {
    let a = order_by_tracks(
        vec![entry("c.mp3"), entry("a.mp3"), entry("b.mp3")],
        &vec![Some(3u16), Some(1), Some(2)],
    );
    let b = order_by_tracks(
        vec![entry("a.mp3"), entry("b.mp3"), entry("c.mp3")],
        &vec![Some(1u16), Some(2), Some(3)],
    );
    assert_eq!(names_of(&a), names_of(&b));
    assert_eq!(names_of(&a), vec!["a.mp3", "b.mp3", "c.mp3"]);
}

#[test]
fn ordering_with_missing_track_keeps_input_order() {
    let items = vec![entry("z.mp3"), entry("y.mp3"), entry("x.mp3")];
    let tracks = vec![Some(3u16), None, Some(1)];
    let r = order_by_tracks(items, &tracks);
    assert_eq!(names_of(&r), vec!["z.mp3", "y.mp3", "x.mp3"]);
}

#[test]
fn ordering_is_stable_for_equal_tracks() {
    let items = vec![entry("first.mp3"), entry("second.mp3"), entry("zero.mp3")];
    let tracks = vec![Some(2u16), Some(2), Some(1)];
    let r = order_by_tracks(items, &tracks);
    assert_eq!(names_of(&r), vec!["zero.mp3", "first.mp3", "second.mp3"]);
}

#[test]
fn ordering_of_empty_listing_is_empty() {
    let r = order_by_tracks(Vec::<DirEntry>::new(), &Vec::new());
    assert_eq!(r.len(), 0);
}

#[test]
fn policy_with_unreadable_tags_keeps_order() {
    let dir = FsPath::from_components(vec![
        "no".to_string(),
        "such".to_string(),
        "directory".to_string(),
    ]);
    let items = vec![entry("Track03.mp3"), entry("Track01.mp3")];
    let r = sort_by_track_number(items, &dir);
    assert_eq!(names_of(&r), vec!["Track03.mp3", "Track01.mp3"]);
}
