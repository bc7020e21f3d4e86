use music_player::player::{
    step, PlayerState, SinkAction, SinkModel, ThreadCommand, ThreadMessage,
};

fn song(path: &str) -> ThreadMessage {
    ThreadMessage { command: ThreadCommand::SONG, msg: Some(path.to_string()) }
}

fn bare(command: ThreadCommand) -> ThreadMessage {
    ThreadMessage { command, msg: None }
}

#[test]
fn commands_apply_in_send_order() {
    let mut sink = SinkModel::new();
    let state = PlayerState::PAUSED;
    let (state, go_on) = sink.run_message(state, song("/music/a.mp3"));
    assert!(matches!(state, PlayerState::PLAYING));
    assert!(go_on);
    let (state, go_on) = sink.run_message(state, bare(ThreadCommand::PLAYPAUSE));
    assert!(matches!(state, PlayerState::PAUSED));
    assert!(go_on);
    let (state, _) = sink.run_message(state, song("/music/b.mp3"));
    assert!(matches!(state, PlayerState::PLAYING));
    assert_eq!(sink.appended(), &vec!["/music/a.mp3".to_string(), "/music/b.mp3".to_string()]);
    assert!(!sink.is_paused());
}

#[test]
fn play_pause_toggles_both_ways() {
    let (state, action, go_on) = step(PlayerState::PLAYING, bare(ThreadCommand::PLAYPAUSE));
    assert!(matches!(state, PlayerState::PAUSED));
    assert_eq!(action, SinkAction::PAUSE);
    assert!(go_on);
    let (state, action, _) = step(PlayerState::PAUSED, bare(ThreadCommand::PLAYPAUSE));
    assert!(matches!(state, PlayerState::PLAYING));
    assert_eq!(action, SinkAction::PLAY);
}

#[test]
fn a_song_command_appends_and_plays() {
    let (state, action, go_on) = step(PlayerState::PAUSED, song("/music/x.mp3"));
    assert!(matches!(state, PlayerState::PLAYING));
    assert_eq!(action, SinkAction::APPEND("/music/x.mp3".to_string()));
    assert!(go_on);
}

#[test]
fn skip_keeps_the_state() {
    let (state, action, go_on) = step(PlayerState::PAUSED, bare(ThreadCommand::SKIP));
    assert!(matches!(state, PlayerState::PAUSED));
    assert_eq!(action, SinkAction::SKIPONE);
    assert!(go_on);
}

#[test]
fn end_stops_the_worker() {
    let (state, action, go_on) = step(PlayerState::PLAYING, bare(ThreadCommand::END));
    assert!(matches!(state, PlayerState::PLAYING));
    assert_eq!(action, SinkAction::NOTHING);
    assert!(!go_on);
}

#[test]
fn none_does_nothing() {
    let mut sink = SinkModel::new();
    let (state, go_on) = sink.run_message(PlayerState::PAUSED, bare(ThreadCommand::NONE));
    assert!(matches!(state, PlayerState::PAUSED));
    assert!(go_on);
    assert!(sink.appended().is_empty());
    assert!(sink.is_paused());
}
