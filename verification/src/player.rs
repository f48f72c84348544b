//! The player orchestrator: playlist, position and volume state, and
//! the translation of every high-level command into the operations
//! the runtime performs on the sink, the decoder worker and the
//! spectrum engine. The command loop, timers and channels live
//! outside; this module is the decision function they drive, so every
//! state change and every emitted action is specified exactly.
use crate::output::VOLUME_SCALE;
use crate::output::clamp_volume;
use std::collections::VecDeque;
use vstd::prelude::*;

verus! {

/// One playlist entry: the track's identifier and its local file
/// path.
pub struct SongData {
    pub id: String,
    pub file_path: String,
}

/// An owned copy of one playlist entry, equal to the original.
pub fn clone_song(s: &SongData) -> (r: SongData)
    ensures
        r == *s,
{
    SongData { id: s.id.clone(), file_path: s.file_path.clone() }
}

/// An owned copy of a playlist, equal element by element.
pub fn clone_playlist(songs: &Vec<SongData>) -> (r: Vec<SongData>)
    ensures
        r@ == songs@,
{
    let mut r: Vec<SongData> = Vec::new();
    let mut i: usize = 0;
    while i < songs.len()
        invariant
            i <= songs@.len(),
            r@ == songs@.take(i as int),
        decreases songs@.len() - i,
    {
        r.push(clone_song(&songs[i]));
        proof {
            assert(r@ =~= songs@.take(i + 1));
        }
        i += 1;
    }
    proof {
        assert(songs@.take(songs@.len() as int) =~= songs@);
    }
    r
}

/// A command for the player orchestrator. Volumes are fixed-point
/// (`VOLUME_SCALE` per 1.0), positions are microseconds, frequencies
/// millihertz.
pub enum AudioThreadMessage {
    ResumeAudio,
    PauseAudio,
    ResumeOrPauseAudio,
    SeekAudio { position_us: u64 },
    SetVolume { volume: i64 },
    NextSong,
    NextSongGapless,
    PrevSong,
    JumpToSong { song_index: usize },
    SetPlaylist { songs: Vec<SongData> },
    SetFftRange { from_mhz: u32, to_mhz: u32 },
    SetMediaControlsEnabled { enabled: bool },
    Close,
}

/// An operation the runtime must perform on the orchestrator's
/// behalf after a command was processed.
pub enum PlayerAction {
    SinkPlay,
    SinkPause,
    SinkStop,
    SinkSetVolume { volume: i64 },
    DecoderSeek { position_us: u64 },
    ClearSpectrum,
    SetSpectrumRange { from_mhz: u32, to_mhz: u32 },
    StartDecoder { file_path: String, clear_sink: bool },
    EmitPosition { playing: bool, position_us: u64 },
    UpdateMediaPlayback { playing: bool },
    SetMediaControlsEnabled { enabled: bool },
}

/// Why a command could not be carried out.
#[derive(Debug, Clone, Copy, PartialEq, Eq, Structural)]
pub enum PlayerError {
    NoCurrentSong,
}

/// A control event from the platform's media session (play/pause
/// keys and friends).
pub enum MediaStateMessage {
    Play,
    Pause,
    PlayOrPause,
    Next,
    Previous,
    Seek(u64),
}

/// Maps a media-session event to the orchestrator command it stands
/// for.
pub fn map_media_message(msg: &MediaStateMessage) -> (r: AudioThreadMessage)
    ensures
        match *msg {
            MediaStateMessage::Play => r is ResumeAudio,
            MediaStateMessage::Pause => r is PauseAudio,
            MediaStateMessage::PlayOrPause => r is ResumeOrPauseAudio,
            MediaStateMessage::Next => r is NextSong,
            MediaStateMessage::Previous => r is PrevSong,
            MediaStateMessage::Seek(pos) => r == (AudioThreadMessage::SeekAudio {
                position_us: pos,
            }),
        },
{
    match msg {
        MediaStateMessage::Play => AudioThreadMessage::ResumeAudio,
        MediaStateMessage::Pause => AudioThreadMessage::PauseAudio,
        MediaStateMessage::PlayOrPause => AudioThreadMessage::ResumeOrPauseAudio,
        MediaStateMessage::Next => AudioThreadMessage::NextSong,
        MediaStateMessage::Previous => AudioThreadMessage::PrevSong,
        MediaStateMessage::Seek(pos) => AudioThreadMessage::SeekAudio { position_us: *pos },
    }
}

/// Configuration of a player instance. The running system derives
/// everything it needs from the output stream it was handed, so no
/// field remains here.
pub struct AudioPlayerConfig {}

/// The synchronized status snapshot broadcast after every processed
/// command.
pub struct StatusSnapshot {
    pub music_id: String,
    pub is_playing: bool,
    pub position_us: u64,
    pub volume: i64,
    pub playlist: Vec<SongData>,
    pub playlist_inited: bool,
    pub current_play_index: usize,
}

/// The orchestrator's own state: what it owns outright, as opposed
/// to what lives in the sink, the decoder worker or the spectrum
/// engine.
pub struct PlayerState {
    volume: i64,
    playlist: Vec<SongData>,
    playlist_inited: bool,
    current_play_index: usize,
    current_song: Option<SongData>,
    paused: bool,
    has_decoder: bool,
    position_us: u64,
    target_channels: u16,
    target_sample_rate: u32,
}

impl PlayerState {
    /// The current volume, in `VOLUME_SCALE` units per 1.0.
    pub closed spec fn spec_volume(self) -> i64 {
        self.volume
    }

    /// The playlist entries.
    pub closed spec fn spec_playlist(self) -> Seq<SongData> {
        self.playlist@
    }

    /// Whether a playlist has been set at least once.
    pub closed spec fn spec_playlist_inited(self) -> bool {
        self.playlist_inited
    }

    /// The index of the current track within the playlist.
    pub closed spec fn spec_current_index(self) -> usize {
        self.current_play_index
    }

    /// The current track, if one was selected.
    pub closed spec fn spec_current_song(self) -> Option<SongData> {
        self.current_song
    }

    /// Whether the sink is paused.
    pub closed spec fn spec_paused(self) -> bool {
        self.paused
    }

    /// Whether a decoder worker is live and seekable.
    pub closed spec fn spec_has_decoder(self) -> bool {
        self.has_decoder
    }

    /// The playback position, in microseconds.
    pub closed spec fn spec_position_us(self) -> u64 {
        self.position_us
    }

    /// A fresh orchestrator for an output stream with the given
    /// target parameters: full volume, paused, nothing loaded.
    pub fn new(config: AudioPlayerConfig, target_channels: u16, target_sample_rate: u32) -> (s:
        Self)
        ensures
            s.spec_volume() == VOLUME_SCALE,
            s.spec_playlist() == Seq::<SongData>::empty(),
            !s.spec_playlist_inited(),
            s.spec_current_index() == 0,
            s.spec_current_song() is None,
            s.spec_paused(),
            !s.spec_has_decoder(),
            s.spec_position_us() == 0,
    {
        PlayerState {
            volume: VOLUME_SCALE,
            playlist: Vec::new(),
            playlist_inited: false,
            current_play_index: 0,
            current_song: None,
            paused: true,
            has_decoder: false,
            position_us: 0,
            target_channels,
            target_sample_rate,
        }
    }

    /// The auto-advance poll: move to the next track exactly when
    /// the sink ran dry while a track was playing.
    pub fn should_auto_advance(&self, sink_empty: bool) -> (r: bool)
        ensures
            r == (sink_empty && !self.spec_paused() && self.spec_current_song() is Some),
    {
        sink_empty && !self.paused && self.current_song.is_some()
    }

    /// Whether a command shuts the orchestrator down.
    pub fn should_close(msg: &AudioThreadMessage) -> (r: bool)
        ensures
            r == (*msg is Close),
    {
        matches!(msg, AudioThreadMessage::Close)
    }

    /// The track-switch tail shared by next/previous/jump: emits the
    /// stop-and-recreate actions for a non-gapless switch, and the
    /// start of the new track's decoder.
    fn start_playing_actions(&mut self, clear_sink: bool) -> (r: Result<
        Vec<PlayerAction>,
        PlayerError,
    >)
        ensures
            final(self).spec_volume() == old(self).spec_volume(),
            final(self).spec_playlist() == old(self).spec_playlist(),
            final(self).spec_playlist_inited() == old(self).spec_playlist_inited(),
            final(self).spec_current_index() == old(self).spec_current_index(),
            final(self).spec_current_song() == old(self).spec_current_song(),
            final(self).spec_paused() == (old(self).spec_paused() && !clear_sink),
            final(self).spec_position_us() == old(self).spec_position_us(),
            old(self).spec_current_song() is None ==> r is Err && final(self).spec_has_decoder()
                == (old(self).spec_has_decoder() && !clear_sink),
            old(self).spec_current_song() is Some ==> r is Ok && final(self).spec_has_decoder() == (
            old(self).spec_has_decoder() && !clear_sink) && r->Ok_0@ == (if clear_sink {
                seq![
                    PlayerAction::SinkStop,
                    PlayerAction::ClearSpectrum,
                    PlayerAction::SinkSetVolume { volume: old(self).spec_volume() },
                    PlayerAction::StartDecoder {
                        file_path: old(self).spec_current_song()->0.file_path,
                        clear_sink: true,
                    },
                ]
            } else {
                seq![
                    PlayerAction::StartDecoder {
                        file_path: old(self).spec_current_song()->0.file_path,
                        clear_sink: false,
                    },
                ]
            }),
    {
        let mut actions: Vec<PlayerAction> = Vec::new();
        if clear_sink {
            actions.push(PlayerAction::SinkStop);
            actions.push(PlayerAction::ClearSpectrum);
            actions.push(PlayerAction::SinkSetVolume { volume: self.volume });
            self.has_decoder = false;
            self.paused = false;
        }
        let song = match &self.current_song {
            Some(song) => clone_song(song),
            None => {
                return Err(PlayerError::NoCurrentSong);
            },
        };
        actions.push(PlayerAction::StartDecoder { file_path: song.file_path, clear_sink });
        proof {
            if clear_sink {
                assert(actions@ =~= seq![
                    PlayerAction::SinkStop,
                    PlayerAction::ClearSpectrum,
                    PlayerAction::SinkSetVolume { volume: old(self).spec_volume() },
                    PlayerAction::StartDecoder {
                        file_path: old(self).spec_current_song()->0.file_path,
                        clear_sink: true,
                    },
                ]);
            } else {
                assert(actions@ =~= seq![
                    PlayerAction::StartDecoder {
                        file_path: old(self).spec_current_song()->0.file_path,
                        clear_sink: false,
                    },
                ]);
            }
        }
        Ok(actions)
    }

    /// The decoder for the current track came up: playback restarts
    /// from the beginning of the track and the runtime is told the
    /// new playing state.
    pub fn decoder_started(&mut self) -> (r: Vec<PlayerAction>)
        ensures
            final(self).spec_has_decoder(),
            final(self).spec_position_us() == 0,
            final(self).spec_volume() == old(self).spec_volume(),
            final(self).spec_playlist() == old(self).spec_playlist(),
            final(self).spec_playlist_inited() == old(self).spec_playlist_inited(),
            final(self).spec_current_index() == old(self).spec_current_index(),
            final(self).spec_current_song() == old(self).spec_current_song(),
            final(self).spec_paused() == old(self).spec_paused(),
            r@ == seq![
                PlayerAction::EmitPosition {
                    playing: !old(self).spec_paused(),
                    position_us: 0u64,
                },
                PlayerAction::UpdateMediaPlayback { playing: !old(self).spec_paused() },
            ],
    {
        self.has_decoder = true;
        self.position_us = 0;
        let playing = !self.paused;
        let mut actions: Vec<PlayerAction> = Vec::new();
        actions.push(PlayerAction::EmitPosition { playing, position_us: 0 });
        actions.push(PlayerAction::UpdateMediaPlayback { playing });
        proof {
            assert(actions@ =~= seq![
                PlayerAction::EmitPosition {
                    playing: !old(self).spec_paused(),
                    position_us: 0u64,
                },
                PlayerAction::UpdateMediaPlayback { playing: !old(self).spec_paused() },
            ]);
        }
        actions
    }

    /// The synchronized status snapshot broadcast after every
    /// command: exactly the orchestrator's current state.
    pub fn snapshot(&self) -> (r: StatusSnapshot)
        ensures
            self.spec_current_song() is Some ==> r.music_id == self.spec_current_song()->0.id,
            self.spec_current_song() is None ==> r.music_id@ == Seq::<char>::empty(),
            r.is_playing == !self.spec_paused(),
            r.position_us == self.spec_position_us(),
            r.volume == self.spec_volume(),
            r.playlist@ == self.spec_playlist(),
            r.playlist_inited == self.spec_playlist_inited(),
            r.current_play_index == self.spec_current_index(),
    {
        let music_id = match &self.current_song {
            Some(song) => song.id.clone(),
            None => String::new(),
        };
        StatusSnapshot {
            music_id,
            is_playing: !self.paused,
            position_us: self.position_us,
            volume: self.volume,
            playlist: clone_playlist(&self.playlist),
            playlist_inited: self.playlist_inited,
            current_play_index: self.current_play_index,
        }
    }

    /// The orchestrator spec of the start-of-track actions: the
    /// non-gapless variant stops and recreates the sink (restoring
    /// the volume and clearing the spectrum engine) before the new
    /// track's decoder is started.
    pub open spec fn spec_start_actions(volume: i64, file_path: String, clear_sink: bool) -> Seq<
        PlayerAction,
    > {
        if clear_sink {
            seq![
                PlayerAction::SinkStop,
                PlayerAction::ClearSpectrum,
                PlayerAction::SinkSetVolume { volume: volume },
                PlayerAction::StartDecoder { file_path: file_path, clear_sink: true },
            ]
        } else {
            seq![PlayerAction::StartDecoder { file_path: file_path, clear_sink: false }]
        }
    }

    /// Processes one command: updates the orchestrator's state and
    /// returns the operations the runtime must perform, both exactly
    /// as specified per command. After an accepted command the
    /// runtime broadcasts `snapshot()` and acknowledges the request.
    pub fn process_message(&mut self, msg: AudioThreadMessage) -> (r: Result<
        Vec<PlayerAction>,
        PlayerError,
    >)
        ensures
            match msg {
                AudioThreadMessage::ResumeAudio => r is Ok && !final(self).spec_paused()
                    && Self::same_but_paused(*old(self), *final(self)) && r->Ok_0@ == seq![
                    PlayerAction::SinkPlay,
                    PlayerAction::EmitPosition {
                        playing: true,
                        position_us: old(self).spec_position_us(),
                    },
                    PlayerAction::UpdateMediaPlayback { playing: true },
                ],
                AudioThreadMessage::PauseAudio => r is Ok && final(self).spec_paused()
                    && Self::same_but_paused(*old(self), *final(self)) && r->Ok_0@ == seq![
                    PlayerAction::SinkPause,
                    PlayerAction::EmitPosition {
                        playing: false,
                        position_us: old(self).spec_position_us(),
                    },
                    PlayerAction::UpdateMediaPlayback { playing: false },
                ],
                AudioThreadMessage::ResumeOrPauseAudio => r is Ok && final(self).spec_paused()
                    == !old(self).spec_paused() && Self::same_but_paused(*old(self), *final(self))
                    && r->Ok_0@ == seq![
                    if old(self).spec_paused() {
                        PlayerAction::SinkPlay
                    } else {
                        PlayerAction::SinkPause
                    },
                    PlayerAction::EmitPosition {
                        playing: old(self).spec_paused(),
                        position_us: old(self).spec_position_us(),
                    },
                    PlayerAction::UpdateMediaPlayback { playing: old(self).spec_paused() },
                ],
                AudioThreadMessage::SeekAudio { position_us } => r is Ok && (old(self).spec_has_decoder() ==> final(self).spec_position_us() == position_us
                    && Self::same_but_position(*old(self), *final(self)) && r->Ok_0@ == seq![
                    PlayerAction::DecoderSeek { position_us: position_us },
                    PlayerAction::ClearSpectrum,
                    PlayerAction::EmitPosition {
                        playing: !old(self).spec_paused(),
                        position_us: position_us,
                    },
                    PlayerAction::UpdateMediaPlayback { playing: !old(self).spec_paused() },
                ]) && (!old(self).spec_has_decoder() ==> *final(self) == *old(self) && r->Ok_0@
                    == Seq::<PlayerAction>::empty()),
                AudioThreadMessage::SetVolume { volume } => r is Ok && final(self).spec_volume()
                    == crate::output::spec_clamp_volume(volume as int) && Self::same_but_volume(
                    *old(self),
                    *final(self),
                ) && r->Ok_0@ == seq![
                    PlayerAction::SinkSetVolume { volume: final(self).spec_volume() },
                ],
                AudioThreadMessage::NextSong => Self::spec_advance(
                    *old(self),
                    *final(self),
                    r,
                    ((old(self).spec_current_index() + 1) as int) % (
                    old(self).spec_playlist().len() as int),
                    true,
                ),
                AudioThreadMessage::NextSongGapless => Self::spec_advance(
                    *old(self),
                    *final(self),
                    r,
                    ((old(self).spec_current_index() + 1) as int) % (
                    old(self).spec_playlist().len() as int),
                    false,
                ),
                AudioThreadMessage::PrevSong => Self::spec_advance(
                    *old(self),
                    *final(self),
                    r,
                    if old(self).spec_current_index() == 0 {
                        old(self).spec_playlist().len() as int - 1
                    } else {
                        old(self).spec_current_index() - 1
                    },
                    true,
                ),
                AudioThreadMessage::JumpToSong { song_index } => r is Ok && (song_index < old(self).spec_playlist().len() ==> final(self).spec_current_index() == song_index && final(self).spec_current_song() == Some(old(self).spec_playlist()[song_index as int]) && final(self).spec_has_decoder() == false && !final(self).spec_paused() && Self::same_core(
                    *old(self),
                    *final(self),
                ) && r->Ok_0@ == Self::spec_start_actions(
                    old(self).spec_volume(),
                    old(self).spec_playlist()[song_index as int].file_path,
                    true,
                )) && (song_index >= old(self).spec_playlist().len() ==> *final(self) == *old(self)
                    && r->Ok_0@ == Seq::<PlayerAction>::empty()),
                AudioThreadMessage::SetPlaylist { songs } => r is Ok && final(self).spec_playlist()
                    == songs@ && final(self).spec_playlist_inited() && final(self).spec_volume()
                    == old(self).spec_volume() && final(self).spec_current_index() == old(self).spec_current_index() && final(self).spec_current_song() == old(self).spec_current_song() && final(self).spec_paused() == old(self).spec_paused()
                    && final(self).spec_has_decoder() == old(self).spec_has_decoder() && final(self).spec_position_us() == old(self).spec_position_us() && r->Ok_0@ == Seq::<
                    PlayerAction,
                >::empty(),
                AudioThreadMessage::SetFftRange { from_mhz, to_mhz } => r is Ok && *final(self)
                    == *old(self) && r->Ok_0@ == seq![
                    PlayerAction::SetSpectrumRange { from_mhz: from_mhz, to_mhz: to_mhz },
                ],
                AudioThreadMessage::SetMediaControlsEnabled { enabled } => r is Ok && *final(self)
                    == *old(self) && r->Ok_0@ == seq![
                    PlayerAction::SetMediaControlsEnabled { enabled: enabled },
                ],
                AudioThreadMessage::Close => r is Ok && *final(self) == *old(self) && r->Ok_0@
                    == Seq::<PlayerAction>::empty(),
            },
    {
        match msg {
            AudioThreadMessage::ResumeAudio => {
                self.paused = false;
                let mut actions: Vec<PlayerAction> = Vec::new();
                actions.push(PlayerAction::SinkPlay);
                actions.push(
                    PlayerAction::EmitPosition { playing: true, position_us: self.position_us },
                );
                actions.push(PlayerAction::UpdateMediaPlayback { playing: true });
                proof {
                    assert(actions@ =~= seq![
                        PlayerAction::SinkPlay,
                        PlayerAction::EmitPosition {
                            playing: true,
                            position_us: old(self).spec_position_us(),
                        },
                        PlayerAction::UpdateMediaPlayback { playing: true },
                    ]);
                }
                Ok(actions)
            },
            AudioThreadMessage::PauseAudio => {
                self.paused = true;
                let mut actions: Vec<PlayerAction> = Vec::new();
                actions.push(PlayerAction::SinkPause);
                actions.push(
                    PlayerAction::EmitPosition { playing: false, position_us: self.position_us },
                );
                actions.push(PlayerAction::UpdateMediaPlayback { playing: false });
                proof {
                    assert(actions@ =~= seq![
                        PlayerAction::SinkPause,
                        PlayerAction::EmitPosition {
                            playing: false,
                            position_us: old(self).spec_position_us(),
                        },
                        PlayerAction::UpdateMediaPlayback { playing: false },
                    ]);
                }
                Ok(actions)
            },
            AudioThreadMessage::ResumeOrPauseAudio => {
                let was_paused = self.paused;
                self.paused = !was_paused;
                let mut actions: Vec<PlayerAction> = Vec::new();
                if was_paused {
                    actions.push(PlayerAction::SinkPlay);
                } else {
                    actions.push(PlayerAction::SinkPause);
                }
                actions.push(
                    PlayerAction::EmitPosition {
                        playing: was_paused,
                        position_us: self.position_us,
                    },
                );
                actions.push(PlayerAction::UpdateMediaPlayback { playing: was_paused });
                proof {
                    assert(actions@ =~= seq![
                        if old(self).spec_paused() {
                            PlayerAction::SinkPlay
                        } else {
                            PlayerAction::SinkPause
                        },
                        PlayerAction::EmitPosition {
                            playing: old(self).spec_paused(),
                            position_us: old(self).spec_position_us(),
                        },
                        PlayerAction::UpdateMediaPlayback { playing: old(self).spec_paused() },
                    ]);
                }
                Ok(actions)
            },
            AudioThreadMessage::SeekAudio { position_us } => {
                if !self.has_decoder {
                    return Ok(Vec::new());
                }
                self.position_us = position_us;
                let playing = !self.paused;
                let mut actions: Vec<PlayerAction> = Vec::new();
                actions.push(PlayerAction::DecoderSeek { position_us });
                actions.push(PlayerAction::ClearSpectrum);
                actions.push(PlayerAction::EmitPosition { playing, position_us });
                actions.push(PlayerAction::UpdateMediaPlayback { playing });
                proof {
                    assert(actions@ =~= seq![
                        PlayerAction::DecoderSeek { position_us: position_us },
                        PlayerAction::ClearSpectrum,
                        PlayerAction::EmitPosition {
                            playing: !old(self).spec_paused(),
                            position_us: position_us,
                        },
                        PlayerAction::UpdateMediaPlayback { playing: !old(self).spec_paused() },
                    ]);
                }
                Ok(actions)
            },
            AudioThreadMessage::SetVolume { volume } => {
                self.volume = clamp_volume(volume);
                let mut actions: Vec<PlayerAction> = Vec::new();
                actions.push(PlayerAction::SinkSetVolume { volume: self.volume });
                proof {
                    assert(actions@ =~= seq![
                        PlayerAction::SinkSetVolume { volume: final(self).spec_volume() },
                    ]);
                }
                Ok(actions)
            },
            AudioThreadMessage::NextSong => self.advance_to(true, true),
            AudioThreadMessage::NextSongGapless => self.advance_to(true, false),
            AudioThreadMessage::PrevSong => self.advance_to(false, true),
            AudioThreadMessage::JumpToSong { song_index } => {
                if song_index >= self.playlist.len() {
                    return Ok(Vec::new());
                }
                self.current_play_index = song_index;
                self.current_song = Some(clone_song(&self.playlist[song_index]));
                match self.start_playing_actions(true) {
                    Ok(actions) => Ok(actions),
                    Err(e) => Err(e),
                }
            },
            AudioThreadMessage::SetPlaylist { songs } => {
                self.playlist = songs;
                self.playlist_inited = true;
                Ok(Vec::new())
            },
            AudioThreadMessage::SetFftRange { from_mhz, to_mhz } => {
                let mut actions: Vec<PlayerAction> = Vec::new();
                actions.push(PlayerAction::SetSpectrumRange { from_mhz, to_mhz });
                proof {
                    assert(actions@ =~= seq![
                        PlayerAction::SetSpectrumRange { from_mhz: from_mhz, to_mhz: to_mhz },
                    ]);
                }
                Ok(actions)
            },
            AudioThreadMessage::SetMediaControlsEnabled { enabled } => {
                let mut actions: Vec<PlayerAction> = Vec::new();
                actions.push(PlayerAction::SetMediaControlsEnabled { enabled });
                proof {
                    assert(actions@ =~= seq![
                        PlayerAction::SetMediaControlsEnabled { enabled: enabled },
                    ]);
                }
                Ok(actions)
            },
            AudioThreadMessage::Close => Ok(Vec::new()),
        }
    }

    /// The fields no command but set-volume and set-playlist touch.
    pub open spec fn same_core(a: PlayerState, b: PlayerState) -> bool {
        &&& b.spec_volume() == a.spec_volume()
        &&& b.spec_playlist() == a.spec_playlist()
        &&& b.spec_playlist_inited() == a.spec_playlist_inited()
        &&& b.spec_position_us() == a.spec_position_us()
    }

    /// Everything except the paused flag is unchanged.
    pub open spec fn same_but_paused(a: PlayerState, b: PlayerState) -> bool {
        &&& Self::same_core(a, b)
        &&& b.spec_current_index() == a.spec_current_index()
        &&& b.spec_current_song() == a.spec_current_song()
        &&& b.spec_has_decoder() == a.spec_has_decoder()
    }

    /// Everything except the position is unchanged.
    pub open spec fn same_but_position(a: PlayerState, b: PlayerState) -> bool {
        &&& b.spec_volume() == a.spec_volume()
        &&& b.spec_playlist() == a.spec_playlist()
        &&& b.spec_playlist_inited() == a.spec_playlist_inited()
        &&& b.spec_current_index() == a.spec_current_index()
        &&& b.spec_current_song() == a.spec_current_song()
        &&& b.spec_paused() == a.spec_paused()
        &&& b.spec_has_decoder() == a.spec_has_decoder()
    }

    /// Everything except the volume is unchanged.
    pub open spec fn same_but_volume(a: PlayerState, b: PlayerState) -> bool {
        &&& b.spec_playlist() == a.spec_playlist()
        &&& b.spec_playlist_inited() == a.spec_playlist_inited()
        &&& b.spec_current_index() == a.spec_current_index()
        &&& b.spec_current_song() == a.spec_current_song()
        &&& b.spec_paused() == a.spec_paused()
        &&& b.spec_has_decoder() == a.spec_has_decoder()
        &&& b.spec_position_us() == a.spec_position_us()
    }

    /// What moving to playlist slot `raw_index` does: with an empty
    /// playlist nothing at all; otherwise the index is reduced into
    /// the playlist (next wraps around, previous can step outside a
    /// shrunken playlist and then selects no track), the matching
    /// track becomes current, and the start-of-track actions are
    /// returned — or the selection error when no track matched.
    pub open spec fn spec_advance(
        a: PlayerState,
        b: PlayerState,
        r: Result<Vec<PlayerAction>, PlayerError>,
        idx: int,
        clear_sink: bool,
    ) -> bool {
        let len = a.spec_playlist().len() as int;
        if len == 0 {
            &&& r is Ok
            &&& r->Ok_0@ == Seq::<PlayerAction>::empty()
            &&& b == a
        } else {
            &&& Self::same_core(a, b)
            &&& b.spec_current_index() == idx
            &&& b.spec_has_decoder() == (a.spec_has_decoder() && !clear_sink)
            &&& b.spec_paused() == (a.spec_paused() && !clear_sink)
            &&& (0 <= idx < len ==> b.spec_current_song() == Some(a.spec_playlist()[idx]) && r
                is Ok && r->Ok_0@ == Self::spec_start_actions(
                a.spec_volume(),
                a.spec_playlist()[idx].file_path,
                clear_sink,
            ))
            &&& (idx >= len ==> b.spec_current_song() is None && r is Err)
        }
    }

    /// Advances the current track forward or backward and starts it.
    fn advance_to(&mut self, forward: bool, clear_sink: bool) -> (r: Result<
        Vec<PlayerAction>,
        PlayerError,
    >)
        ensures
            Self::spec_advance(
                *old(self),
                *final(self),
                r,
                if forward {
                    ((old(self).spec_current_index() + 1) as int) % (
                    old(self).spec_playlist().len() as int)
                } else {
                    if old(self).spec_current_index() == 0 {
                        old(self).spec_playlist().len() as int - 1
                    } else {
                        old(self).spec_current_index() - 1
                    }
                },
                clear_sink,
            ),
    {
        let len = self.playlist.len();
        if len == 0 {
            return Ok(Vec::new());
        }
        let idx = if forward {
            let reduced = self.current_play_index % len;
            let next = (reduced + 1) % len;
            proof {
                lemma_wrap_forward(old(self).spec_current_index() as int, len as int);
            }
            next
        } else {
            if self.current_play_index == 0 {
                len - 1
            } else {
                self.current_play_index - 1
            }
        };
        self.current_play_index = idx;
        if idx < len {
            self.current_song = Some(clone_song(&self.playlist[idx]));
        } else {
            self.current_song = None;
        }
        self.start_playing_actions(clear_sink)
    }
}

/// Stepping one slot forward wraps around the playlist: reducing
/// the stale index first does not change where the step lands.
proof fn lemma_wrap_forward(i: int, len: int)
    requires
        0 <= i,
        0 < len,
    ensures
        (i % len + 1) % len == (i + 1) % len,
{
    vstd::arithmetic::div_mod::lemma_add_mod_noop(i, 1, len);
    if len == 1 {
        vstd::arithmetic::div_mod::lemma_mod_self_0(len);
    } else {
        vstd::arithmetic::div_mod::lemma_small_mod(1nat, len as nat);
    }
}

/// The position the periodic broadcast task reports while playing:
/// the position at the last state change plus the wall time elapsed
/// since, capped at the track's duration.
pub fn playback_position_us(base_us: u64, elapsed_us: u64, duration_us: u64) -> (r: u64)
    ensures
        base_us + elapsed_us <= duration_us ==> r == base_us + elapsed_us,
        base_us + elapsed_us > duration_us ==> r == duration_us,
{
    if elapsed_us <= u64::MAX - base_us && base_us + elapsed_us <= duration_us {
        base_us + elapsed_us
    } else {
        duration_us
    }
}

/// The sending side of the orchestrator's command channel. Pending
/// commands are modelled as an explicit queue; the running loop
/// drains it.
pub struct AudioPlayerHandle {
    pending: VecDeque<AudioThreadMessage>,
    closed: bool,
}

/// The error returned when a command cannot be delivered because the
/// orchestrator loop has shut down.
#[derive(Debug, Clone, Copy, PartialEq, Eq, Structural)]
pub struct CommandSendError;

impl AudioPlayerHandle {
    /// The commands sent but not yet processed, oldest first.
    pub closed spec fn pending(self) -> Seq<AudioThreadMessage> {
        self.pending@
    }

    /// Whether the orchestrator loop has shut down.
    pub closed spec fn closed(self) -> bool {
        self.closed
    }

    /// A fresh handle with no pending command.
    pub fn new() -> (h: Self)
        ensures
            h.pending() == Seq::<AudioThreadMessage>::empty(),
            !h.closed(),
    {
        AudioPlayerHandle { pending: VecDeque::new(), closed: false }
    }

    /// Queues one command for the orchestrator; fails exactly when
    /// the loop has shut down.
    pub fn send(&mut self, msg: AudioThreadMessage) -> (r: Result<(), CommandSendError>)
        ensures
            old(self).closed() ==> r is Err && *final(self) == *old(self),
            !old(self).closed() ==> r is Ok && final(self).pending() == old(self).pending().push(
                msg,
            ) && !final(self).closed(),
    {
        if self.closed {
            Err(CommandSendError)
        } else {
            self.pending.push_back(msg);
            Ok(())
        }
    }

    /// Queues one command that expects no tracked reply, such as the
    /// media-session events forward.
    pub fn send_anonymous(&mut self, msg: AudioThreadMessage) -> (r: Result<(), CommandSendError>)
        ensures
            old(self).closed() ==> r is Err && *final(self) == *old(self),
            !old(self).closed() ==> r is Ok && final(self).pending() == old(self).pending().push(
                msg,
            ) && !final(self).closed(),
    {
        self.send(msg)
    }

    /// The loop's poll: removes and returns the oldest pending
    /// command, if any.
    pub fn poll(&mut self) -> (r: Option<AudioThreadMessage>)
        ensures
            final(self).closed() == old(self).closed(),
            old(self).pending().len() == 0 ==> r is None && final(self).pending() == old(self).pending(),
            old(self).pending().len() > 0 ==> r == Some(old(self).pending()[0])
                && final(self).pending() == old(self).pending().drop_first(),
    {
        self.pending.pop_front()
    }

    /// Marks the orchestrator loop as shut down.
    pub fn mark_closed(&mut self)
        ensures
            final(self).closed(),
            final(self).pending() == old(self).pending(),
    {
        self.closed = true;
    }
}

/// An event broadcast by the orchestrator.
pub enum AudioThreadEvent {
    PlayPosition { position_us: u64 },
    FftData { data: Vec<u64> },
    SyncStatus { status: StatusSnapshot },
    Ack,
}

/// The orchestrator's event outbox: everything emitted, in order,
/// for the outer process to forward.
pub struct AudioPlayerEventEmitter {
    events: VecDeque<AudioThreadEvent>,
}

impl AudioPlayerEventEmitter {
    /// The emitted events not yet forwarded, oldest first.
    pub closed spec fn events(self) -> Seq<AudioThreadEvent> {
        self.events@
    }

    /// A fresh emitter with an empty outbox.
    pub fn new() -> (e: Self)
        ensures
            e.events() == Seq::<AudioThreadEvent>::empty(),
    {
        AudioPlayerEventEmitter { events: VecDeque::new() }
    }

    /// Broadcasts one event.
    pub fn emit(&mut self, evt: AudioThreadEvent)
        ensures
            final(self).events() == old(self).events().push(evt),
    {
        self.events.push_back(evt);
    }

    /// Acknowledges a processed request without a payload.
    pub fn ret_none(&mut self)
        ensures
            final(self).events() == old(self).events().push(AudioThreadEvent::Ack),
    {
        self.events.push_back(AudioThreadEvent::Ack);
    }

    /// Hands the oldest event to the outer process.
    pub fn take_event(&mut self) -> (r: Option<AudioThreadEvent>)
        ensures
            old(self).events().len() == 0 ==> r is None && final(self).events() == old(self).events(),
            old(self).events().len() > 0 ==> r == Some(old(self).events()[0])
                && final(self).events() == old(self).events().drop_first(),
    {
        self.events.pop_front()
    }
}

} // verus!
