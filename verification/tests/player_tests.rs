use player_core::output::VOLUME_SCALE;
use player_core::player::{
    clone_playlist, clone_song, map_media_message, playback_position_us, AudioPlayerConfig,
    AudioPlayerEventEmitter, AudioPlayerHandle, AudioThreadEvent, AudioThreadMessage,
    MediaStateMessage, PlayerAction, PlayerError, PlayerState, SongData,
};

fn song(id: &str, path: &str) -> SongData {
    SongData {
        id: id.to_string(),
        file_path: path.to_string(),
    }
}

fn player_with_three_songs() -> PlayerState {
    let mut state = PlayerState::new(AudioPlayerConfig {}, 2, 48000);
    let songs = vec![song("a", "/music/a.flac"), song("b", "/music/b.flac"), song("c", "/music/c.flac")];
    state
        .process_message(AudioThreadMessage::SetPlaylist { songs })
        .expect("setting the playlist succeeds");
    state
}

#[test]
fn a_new_player_is_paused_at_full_volume() {
    let state = PlayerState::new(AudioPlayerConfig {}, 2, 48000);
    let snap = state.snapshot();
    assert!(!snap.is_playing);
    assert_eq!(snap.volume, VOLUME_SCALE);
    assert_eq!(snap.music_id, "");
    assert!(!snap.playlist_inited);
    assert_eq!(snap.current_play_index, 0);
}

#[test]
fn resume_and_pause_toggle_the_sink() {
    let mut state = player_with_three_songs();
    let actions = state
        .process_message(AudioThreadMessage::ResumeAudio)
        .unwrap();
    assert!(matches!(actions[0], PlayerAction::SinkPlay));
    assert!(state.snapshot().is_playing);

    let actions = state
        .process_message(AudioThreadMessage::PauseAudio)
        .unwrap();
    assert!(matches!(actions[0], PlayerAction::SinkPause));
    assert!(!state.snapshot().is_playing);

    let actions = state
        .process_message(AudioThreadMessage::ResumeOrPauseAudio)
        .unwrap();
    assert!(matches!(actions[0], PlayerAction::SinkPlay));
    assert!(state.snapshot().is_playing);
}

#[test]
fn set_volume_clamps_and_reaches_the_sink() {
    let mut state = player_with_three_songs();
    let actions = state
        .process_message(AudioThreadMessage::SetVolume {
            volume: 2 * VOLUME_SCALE,
        })
        .unwrap();
    assert!(matches!(
        actions[0],
        PlayerAction::SinkSetVolume {
            volume: VOLUME_SCALE
        }
    ));
    assert_eq!(state.snapshot().volume, VOLUME_SCALE);

    state
        .process_message(AudioThreadMessage::SetVolume { volume: -1 })
        .unwrap();
    assert_eq!(state.snapshot().volume, 0);
}

#[test]
fn next_song_advances_and_wraps() {
    let mut state = player_with_three_songs();
    // Index starts at 0; the first advance selects slot 1.
    state.process_message(AudioThreadMessage::NextSong).unwrap();
    assert_eq!(state.snapshot().current_play_index, 1);
    state.process_message(AudioThreadMessage::NextSong).unwrap();
    assert_eq!(state.snapshot().current_play_index, 2);
    let actions = state.process_message(AudioThreadMessage::NextSong).unwrap();
    let snap = state.snapshot();
    assert_eq!(snap.current_play_index, 0);
    assert_eq!(snap.music_id, "a");
    // The non-gapless switch recreates the sink before starting the
    // decoder.
    assert!(matches!(actions[0], PlayerAction::SinkStop));
    assert!(matches!(actions[1], PlayerAction::ClearSpectrum));
    assert!(matches!(
        actions[3],
        PlayerAction::StartDecoder {
            ref file_path,
            clear_sink: true
        } if file_path == "/music/a.flac"
    ));
}

#[test]
fn gapless_advance_keeps_the_sink() {
    let mut state = player_with_three_songs();
    let actions = state
        .process_message(AudioThreadMessage::NextSongGapless)
        .unwrap();
    assert_eq!(actions.len(), 1);
    assert!(matches!(
        actions[0],
        PlayerAction::StartDecoder {
            ref file_path,
            clear_sink: false
        } if file_path == "/music/b.flac"
    ));
}

#[test]
fn prev_song_wraps_to_the_last_slot() {
    let mut state = player_with_three_songs();
    state.process_message(AudioThreadMessage::PrevSong).unwrap();
    let snap = state.snapshot();
    assert_eq!(snap.current_play_index, 2);
    assert_eq!(snap.music_id, "c");
}

#[test]
fn advancing_an_empty_playlist_does_nothing() {
    let mut state = PlayerState::new(AudioPlayerConfig {}, 2, 48000);
    let actions = state.process_message(AudioThreadMessage::NextSong).unwrap();
    assert!(actions.is_empty());
    let actions = state.process_message(AudioThreadMessage::PrevSong).unwrap();
    assert!(actions.is_empty());
}

#[test]
fn jump_to_valid_slot_starts_that_track() {
    let mut state = player_with_three_songs();
    let actions = state
        .process_message(AudioThreadMessage::JumpToSong { song_index: 2 })
        .unwrap();
    assert_eq!(state.snapshot().music_id, "c");
    assert!(matches!(
        actions[3],
        PlayerAction::StartDecoder {
            ref file_path,
            clear_sink: true
        } if file_path == "/music/c.flac"
    ));

    // An out-of-range slot is ignored.
    let actions = state
        .process_message(AudioThreadMessage::JumpToSong { song_index: 9 })
        .unwrap();
    assert!(actions.is_empty());
    assert_eq!(state.snapshot().music_id, "c");
}

#[test]
fn prev_song_with_stale_index_reports_no_current_song() {
    let mut state = player_with_three_songs();
    state
        .process_message(AudioThreadMessage::JumpToSong { song_index: 2 })
        .unwrap();
    // The playlist shrinks under the stale index.
    state
        .process_message(AudioThreadMessage::SetPlaylist {
            songs: vec![song("a", "/music/a.flac")],
        })
        .unwrap();
    // Stepping back from slot 2 aims at slot 1, which no longer exists.
    let result = state.process_message(AudioThreadMessage::PrevSong);
    assert!(matches!(result, Err(PlayerError::NoCurrentSong)));
}

#[test]
fn seek_without_decoder_is_ignored() {
    let mut state = player_with_three_songs();
    let actions = state
        .process_message(AudioThreadMessage::SeekAudio {
            position_us: 30_000_000,
        })
        .unwrap();
    assert!(actions.is_empty());
}

#[test]
fn seek_with_decoder_forwards_and_clears_spectrum() {
    let mut state = player_with_three_songs();
    state.process_message(AudioThreadMessage::NextSong).unwrap();
    state.decoder_started();
    let actions = state
        .process_message(AudioThreadMessage::SeekAudio {
            position_us: 30_000_000,
        })
        .unwrap();
    assert!(matches!(
        actions[0],
        PlayerAction::DecoderSeek {
            position_us: 30_000_000
        }
    ));
    assert!(matches!(actions[1], PlayerAction::ClearSpectrum));
    assert_eq!(state.snapshot().position_us, 30_000_000);
}

#[test]
fn decoder_startup_resets_the_position() {
    let mut state = player_with_three_songs();
    state.process_message(AudioThreadMessage::NextSong).unwrap();
    let actions = state.decoder_started();
    assert!(matches!(
        actions[0],
        PlayerAction::EmitPosition {
            playing: true,
            position_us: 0
        }
    ));
    assert_eq!(state.snapshot().position_us, 0);
}

#[test]
fn auto_advance_fires_only_while_playing_a_track() {
    let mut state = player_with_three_songs();
    assert!(!state.should_auto_advance(true)); // nothing selected yet
    state.process_message(AudioThreadMessage::NextSong).unwrap();
    assert!(state.should_auto_advance(true));
    assert!(!state.should_auto_advance(false)); // sink still has audio
    state.process_message(AudioThreadMessage::PauseAudio).unwrap();
    assert!(!state.should_auto_advance(true)); // paused
}

#[test]
fn close_is_the_only_terminating_command() {
    assert!(PlayerState::should_close(&AudioThreadMessage::Close));
    assert!(!PlayerState::should_close(&AudioThreadMessage::NextSong));
}

#[test]
fn media_session_events_map_to_commands() {
    assert!(matches!(
        map_media_message(&MediaStateMessage::Play),
        AudioThreadMessage::ResumeAudio
    ));
    assert!(matches!(
        map_media_message(&MediaStateMessage::PlayOrPause),
        AudioThreadMessage::ResumeOrPauseAudio
    ));
    assert!(matches!(
        map_media_message(&MediaStateMessage::Seek(99)),
        AudioThreadMessage::SeekAudio { position_us: 99 }
    ));
    assert!(matches!(
        map_media_message(&MediaStateMessage::Previous),
        AudioThreadMessage::PrevSong
    ));
}

#[test]
fn command_handle_delivers_in_order_until_closed() {
    let mut handle = AudioPlayerHandle::new();
    handle.send(AudioThreadMessage::ResumeAudio).unwrap();
    handle
        .send_anonymous(AudioThreadMessage::PauseAudio)
        .unwrap();
    assert!(matches!(
        handle.poll(),
        Some(AudioThreadMessage::ResumeAudio)
    ));
    assert!(matches!(handle.poll(), Some(AudioThreadMessage::PauseAudio)));
    assert!(handle.poll().is_none());
    handle.mark_closed();
    assert!(handle.send(AudioThreadMessage::ResumeAudio).is_err());
}

#[test]
fn emitter_keeps_event_order() {
    let mut emitter = AudioPlayerEventEmitter::new();
    emitter.emit(AudioThreadEvent::PlayPosition { position_us: 5 });
    emitter.ret_none();
    assert!(matches!(
        emitter.take_event(),
        Some(AudioThreadEvent::PlayPosition { position_us: 5 })
    ));
    assert!(matches!(emitter.take_event(), Some(AudioThreadEvent::Ack)));
    assert!(emitter.take_event().is_none());
}

#[test]
fn cloning_playlists_preserves_every_entry() {
    let one = song("x", "/music/x.flac");
    let copy = clone_song(&one);
    assert_eq!(copy.id, "x");
    assert_eq!(copy.file_path, "/music/x.flac");
    let list = vec![song("x", "/music/x.flac"), song("y", "/music/y.flac")];
    let copy = clone_playlist(&list);
    assert_eq!(copy.len(), 2);
    assert_eq!(copy[1].id, "y");
}

#[test]
fn broadcast_position_is_capped_at_the_duration() {
    assert_eq!(playback_position_us(1_000_000, 500_000, 180_000_000), 1_500_000);
    assert_eq!(playback_position_us(179_900_000, 500_000, 180_000_000), 180_000_000);
    assert_eq!(playback_position_us(0, 0, 0), 0);
    assert_eq!(playback_position_us(u64::MAX, u64::MAX, 7), 7);
}
