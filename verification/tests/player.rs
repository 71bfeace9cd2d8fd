use yalmp::play::{PlayStart, TickAction};
use yalmp::playlist::PlayerState;

fn songs(names: &[&str]) -> Vec<String> {
    names.iter().map(|s| s.to_string()).collect()
}

#[test]
fn new_player_is_stopped_and_empty() {
    let p = PlayerState::new();
    assert!(p.stopped);
    assert!(p.current_playlist.is_empty());
    assert_eq!(p.current_playlist_idx, 0);
    assert_eq!(p.current_playing_counter, 0);
    assert_eq!(p.requested_playing_counter, 0);
}

#[test]
fn load_playlist_rewinds_to_first_song() {
    let mut p = PlayerState::new();
    p.load_playlist(songs(&["a.flac", "b.flac"]));
    p.current_playlist_idx = 1;
    p.load_playlist(songs(&["c.flac", "d.flac", "e.flac"]));
    assert_eq!(p.current_playlist_idx, 0);
    assert_eq!(p.get_current_song(), Ok("c.flac".to_string()));
}

#[test]
fn empty_playlist_has_no_current_song() {
    let mut p = PlayerState::new();
    p.load_playlist(Vec::new());
    assert_eq!(p.get_current_song(), Err("Invalid index for playlist".to_string()));
}

#[test]
fn set_playlist_idx_moves_only_past_the_end() {
    let mut p = PlayerState::new();
    p.load_playlist(songs(&["a", "b", "c"]));
    p.set_playlist_idx(1);
    assert_eq!(p.current_playlist_idx, 0);
    p.set_playlist_idx(3);
    assert_eq!(p.current_playlist_idx, 0);
    p.set_playlist_idx(4);
    assert_eq!(p.current_playlist_idx, 4);
    assert_eq!(p.get_current_song(), Err("Invalid index for playlist".to_string()));
}

#[test]
fn play_starts_once_then_resumes() {
    let mut p = PlayerState::new();
    p.load_playlist(songs(&["a"]));
    match p.play_current_idx() {
        PlayStart::Start { play_counter } => assert_eq!(play_counter, 1),
        PlayStart::Resume => panic!("a stopped player must start"),
    }
    assert!(!p.stopped);
    assert_eq!(p.requested_playing_counter, 1);
    assert!(matches!(p.play_current_idx(), PlayStart::Resume));
    assert_eq!(p.requested_playing_counter, 1);
}

#[test]
fn tick_claims_output_and_enqueues_next_song() {
    let mut p = PlayerState::new();
    p.load_playlist(songs(&["a", "b", "c"]));
    let counter = match p.play_current_idx() {
        PlayStart::Start { play_counter } => play_counter,
        PlayStart::Resume => panic!("must start"),
    };
    // More than one song still queued: nothing to do, but the output is claimed.
    assert!(matches!(p.playback_tick(counter, 2), TickAction::Wait));
    assert_eq!(p.current_playing_counter, counter);
    match p.playback_tick(counter, 1) {
        TickAction::Enqueue { song } => assert_eq!(song, "b"),
        _ => panic!("the next song is due"),
    }
    assert_eq!(p.current_playlist_idx, 1);
    match p.playback_tick(counter, 0) {
        TickAction::Enqueue { song } => assert_eq!(song, "c"),
        _ => panic!("the next song is due"),
    }
    // The queue is exhausted: the position stays on the last song.
    assert!(matches!(p.playback_tick(counter, 0), TickAction::Wait));
    assert_eq!(p.current_playlist_idx, 2);
}

#[test]
fn other_loop_does_not_advance() {
    let mut p = PlayerState::new();
    p.load_playlist(songs(&["a", "b", "c"]));
    p.current_playing_counter = 3;
    p.requested_playing_counter = 3;
    assert!(matches!(p.playback_tick(2, 0), TickAction::Wait));
    assert_eq!(p.current_playlist_idx, 0);
    assert_eq!(p.current_playing_counter, 3);
}

#[test]
fn tick_stops_on_complemented_counter() {
    let mut p = PlayerState::new();
    p.load_playlist(songs(&["a", "b"]));
    p.requested_playing_counter = 5;
    assert!(matches!(p.playback_tick(!5usize, 0), TickAction::Stop));
    assert_eq!(p.current_playlist_idx, 0);
    assert_eq!(p.current_playing_counter, 0);
}

#[test]
fn finish_hands_output_to_latest_request() {
    let mut p = PlayerState::new();
    p.requested_playing_counter = 4;
    p.current_playing_counter = 2;
    p.finish_playback();
    assert_eq!(p.current_playing_counter, 4);
    assert_eq!(p.requested_playing_counter, 4);
}

#[test]
fn device_switch_resets_counters_but_keeps_queue() {
    let mut p = PlayerState::new();
    p.load_playlist(songs(&["a", "b"]));
    p.current_playlist_idx = 1;
    p.requested_playing_counter = 7;
    p.current_playing_counter = 7;
    p.reset_for_device_switch();
    assert_eq!(p.requested_playing_counter, 0);
    assert_eq!(p.current_playing_counter, 0);
    assert_eq!(p.current_playlist_idx, 1);
    assert_eq!(p.current_playlist, songs(&["a", "b"]));
}

#[test]
fn first_loop_claims_output_and_others_stay_out() {
    let mut p = PlayerState::new();
    p.load_playlist(songs(&["a", "b", "c"]));
    p.requested_playing_counter = 2;
    assert!(matches!(p.playback_tick(1, 3), TickAction::Wait));
    assert_eq!(p.current_playing_counter, 1);
    assert!(matches!(p.playback_tick(2, 0), TickAction::Wait));
    assert_eq!(p.current_playing_counter, 1);
    assert_eq!(p.current_playlist_idx, 0);
    assert!(matches!(p.playback_tick(1, 0), TickAction::Enqueue { .. }));
    assert_eq!(p.current_playlist_idx, 1);
}
