use music_player::browser_list::{BrowserState, BrowserStateBuilder, DirEntry, FileType};
use music_player::fs_path::FsPath;
use music_player::player::ThreadCommand;
use music_player::CoreError;

fn file(name: &str) -> DirEntry {
    DirEntry { name: name.to_string(), kind: FileType::FILE }
}

fn dir(name: &str) -> DirEntry {
    DirEntry { name: name.to_string(), kind: FileType::DIRECTORY }
}

fn names(state: &BrowserState) -> Vec<String> {
    let mut out = Vec::new();
    for e in state.items() {
        out.push(e.name.clone());
    }
    out
}

fn music_state(listing: Vec<DirEntry>) -> BrowserState {
    let root = FsPath::from_components(vec!["music".to_string()]);
    BrowserStateBuilder::new().path(root, Some(listing)).unwrap().build()
}

#[test]
fn enter_selects_the_first_entry() {
    let state = music_state(vec![file("notes.txt"), file("a.mp3"), dir("albums")]);
    assert_eq!(state.selected_index(), Some(0));
    assert!(matches!(state.get_file_type(), FileType::FILE));
    assert_eq!(state.get_current_file(), Some("notes.txt".to_string()));
    assert_eq!(state.get_current_dir(), None);
}

#[test]
fn enter_on_unreadable_directory_fails() {
    let root = FsPath::from_components(vec!["music".to_string()]);
    let r = BrowserStateBuilder::new().path(root, None);
    assert!(matches!(r, Err(CoreError::IoError)));
}

#[test]
fn selection_wraps_forward_after_len_steps() {
    let mut state = music_state(vec![file("a.txt"), file("b.txt"), file("c.txt")]);
    assert_eq!(state.selected_index(), Some(0));
    state.next();
    state.next();
    state.next();
    assert_eq!(state.selected_index(), Some(0));
}

#[test]
fn selection_wraps_backward_after_len_steps() {
    let mut state = music_state(vec![file("a.txt"), file("b.txt"), file("c.txt")]);
    state.previous();
    assert_eq!(state.selected_index(), Some(2));
    state.previous();
    state.previous();
    assert_eq!(state.selected_index(), Some(0));
}

#[test]
fn moving_reclassifies_the_selection() {
    let mut state = music_state(vec![file("a.txt"), dir("albums")]);
    state.next();
    assert!(matches!(state.get_file_type(), FileType::DIRECTORY));
    assert_eq!(state.get_current_dir(), Some("albums".to_string()));
    assert_eq!(state.get_current_file(), None);
}

#[test]
fn refresh_keeps_an_index_still_in_bounds() {
    let listing = vec![file("a.txt"), file("b.txt"), file("c.txt")];
    let mut state = music_state(listing.clone());
    state.next();
    assert_eq!(state.selected_index(), Some(1));
    assert!(state.update_state(Some(listing)).is_ok());
    assert_eq!(state.selected_index(), Some(1));
}

#[test]
fn refresh_clamps_an_index_out_of_bounds() {
    let mut state = music_state(vec![file("a.txt"), file("b.txt"), file("c.txt")]);
    state.next();
    state.next();
    assert_eq!(state.selected_index(), Some(2));
    assert!(state.update_state(Some(vec![file("a.txt"), file("b.txt")])).is_ok());
    assert_eq!(state.selected_index(), Some(0));
}

#[test]
fn refresh_on_unreadable_directory_keeps_the_state() {
    let mut state = music_state(vec![file("a.txt"), file("b.txt")]);
    state.next();
    let before_names = names(&state);
    let before_index = state.selected_index();
    assert_eq!(state.update_state(None), Err(CoreError::IoError));
    assert_eq!(names(&state), before_names);
    assert_eq!(state.selected_index(), before_index);
}

#[test]
fn empty_directory_has_no_selection() {
    let mut state = music_state(Vec::new());
    assert_eq!(state.selected_index(), None);
    assert!(matches!(state.get_file_type(), FileType::NONE));
    state.next();
    assert_eq!(state.selected_index(), None);
    state.previous();
    assert_eq!(state.selected_index(), None);
}

#[test]
fn hidden_entries_are_dropped() {
    let state = music_state(vec![file(".hidden"), file("a.txt"), file(".also-hidden")]);
    assert_eq!(names(&state), vec!["a.txt"]);
}

#[test]
fn mixed_directory_keeps_enumeration_order() {
    let mut listing = Vec::new();
    for i in 0..5 {
        listing.push(file(&format!("z{}.mp3", 9 - i)));
    }
    listing.push(file("readme.txt"));
    for i in 5..9 {
        listing.push(file(&format!("z{}.mp3", 9 - i)));
    }
    let expected: Vec<String> = listing.iter().map(|e| e.name.clone()).collect();
    let state = music_state(listing);
    assert_eq!(names(&state), expected);
}

#[test]
fn descend_enters_the_selected_directory() {
    let mut state = music_state(vec![dir("albums"), file("a.txt")]);
    assert!(matches!(state.get_file_type(), FileType::DIRECTORY));
    assert!(state.select(Some(vec![file("one.txt"), file("two.txt")])).is_ok());
    assert_eq!(state.get_path().to_text(), "/music/albums");
    assert_eq!(state.selected_index(), Some(0));
    assert_eq!(names(&state), vec!["one.txt", "two.txt"]);
}

#[test]
fn select_on_a_file_only_refreshes() {
    let listing = vec![file("a.txt"), file("b.txt")];
    let mut state = music_state(listing.clone());
    assert!(state.select(Some(listing)).is_ok());
    assert_eq!(state.get_path().to_text(), "/music");
    assert_eq!(state.selected_index(), Some(0));
}

#[test]
fn ascend_goes_up_one_directory() {
    let mut state = music_state(vec![file("a.txt")]);
    assert!(state.pop(Some(vec![dir("music"), dir("video")])).is_ok());
    assert!(state.get_path().is_root());
    assert_eq!(names(&state), vec!["music", "video"]);
}

#[test]
fn ascend_at_the_root_keeps_the_path_and_still_refreshes() {
    let listing = vec![dir("home"), dir("tmp")];
    let mut state =
        BrowserStateBuilder::new().path(FsPath::new(), Some(listing.clone())).unwrap().build();
    assert!(state.get_path().is_root());
    let r = state.pop(Some(vec![dir("home")]));
    assert!(r.is_ok());
    assert!(state.get_path().is_root());
    assert_eq!(names(&state), vec!["home"]);
}

#[test]
fn play_song_builds_the_message_for_a_playable_file() {
    let state = music_state(vec![file("song.mp3"), file("b.txt")]);
    let message = state.play_song().unwrap();
    assert!(matches!(message.command, ThreadCommand::SONG));
    assert_eq!(message.msg, Some("/music/song.mp3".to_string()));
}

#[test]
fn play_song_accepts_flac() {
    let state = music_state(vec![file("song.flac")]);
    let message = state.play_song().unwrap();
    assert_eq!(message.msg, Some("/music/song.flac".to_string()));
}

#[test]
fn play_song_refuses_other_suffixes() {
    let state = music_state(vec![file("notes.txt")]);
    assert!(state.play_song().is_none());
}

#[test]
fn play_song_refuses_a_directory_selection() {
    let state = music_state(vec![dir("albums")]);
    assert!(state.play_song().is_none());
}

#[test]
fn repeated_refreshes_of_an_audio_listing_agree() {
    // The second refresh of the same listing is answered from the ordering
    // cache and must show exactly what the first one showed.
    let listing = vec![file("Track03.mp3"), file("Track01.mp3"), file("Track02.mp3")];
    let mut state = music_state(listing.clone());
    let first = names(&state);
    assert!(state.update_state(Some(listing)).is_ok());
    assert_eq!(names(&state), first);
}

#[test]
fn centering_splits_the_leftover_width() {
    assert_eq!(music_player::layout::center_padding(10, 4), 3);
    assert_eq!(music_player::layout::center_padding(5, 5), 0);
}

#[test]
fn path_text_renders_components() {
    let p = FsPath::from_components(vec!["home".to_string(), "me".to_string()]);
    assert_eq!(p.to_text(), "/home/me");
    assert_eq!(p.join("song.mp3"), "/home/me/song.mp3");
    assert_eq!(FsPath::new().to_text(), "");
}

#[test]
fn path_pop_is_a_no_op_at_the_root() {
    let mut p = FsPath::new();
    p.pop();
    assert!(p.is_root());
    p.push("a".to_string());
    p.pop();
    assert!(p.is_root());
}
