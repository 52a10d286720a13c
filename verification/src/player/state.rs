//! The vocabulary of the player: its public types, and the mathematical state that its
//! contracts speak of.
use vstd::prelude::*;

use crate::api::MusicQuality;
use crate::config::Config;
use crate::player::persist::PersistView;
use crate::player::persist::PlayerPersistState;

verus! {

/// Where the playlist came from.
#[derive(Clone, Copy, Debug, PartialEq, Eq, Structural)]
pub enum PlaylistBase {
    Album(u64),
    Artist(u64),
    Playlist(u64),
    /// No single source.
    Nothing,
}

/// How the player goes on at the end of a song or of the playlist.
#[derive(Clone, Copy, Debug, PartialEq, Eq, Structural)]
pub enum PlayMode {
    Sequence,
    LoopOne,
    LoopAll,
}

#[derive(Clone, Copy, Debug, PartialEq, Eq, Structural)]
pub enum ShuffleState {
    Disabled,
    Enabled,
}

impl Default for ShuffleState {
    fn default() -> (state: Self)
        ensures
            state == ShuffleState::Disabled,
    {
        ShuffleState::Disabled
    }
}

/// A place in a song, or a length of time.
#[derive(Clone, Copy, Debug, PartialEq, Eq, Structural)]
pub struct Position {
    pub nanos: u128,
}

impl Position {
    pub open spec fn spec_from_millis(millis: u64) -> Position {
        Position { nanos: (millis * 1_000_000) as u128 }
    }

    /// The whole milliseconds of the position, as far as 64 bits hold them.
    pub open spec fn spec_as_millis(self) -> u64 {
        (self.nanos / 1_000_000) as u64
    }

    pub fn from_millis(millis: u64) -> (position: Position)
        ensures
            position == Position::spec_from_millis(millis),
            position.nanos == millis * 1_000_000,
    {
        Position { nanos: millis as u128 * 1_000_000 }
    }

    pub fn as_millis(&self) -> (millis: u64)
        ensures
            millis == self.spec_as_millis(),
            self.nanos / 1_000_000 <= u64::MAX ==> millis == self.nanos / 1_000_000,
    {
        (self.nanos / 1_000_000) as u64
    }
}

/// Whether a song can be played right away.
#[derive(Clone, Debug, PartialEq, Eq)]
pub enum TrackSource {
    /// Nothing is known of a local file and no download has begun.
    Missing,
    /// The path of the local file.
    Ready(String),
    /// The download or the decoding failed: the song is to be passed over.
    Unplayable,
    /// A download has begun and its outcome is awaited.
    Downloading,
}

/// What the player is doing. A position is part of the states that have one.
#[derive(Clone, Copy, Debug, PartialEq, Eq, Structural)]
pub enum PlayStatus {
    Playing(Position),
    Paused(Position),
    /// The current song cannot be played before a download ends.
    Downloading,
    /// There is nothing to go on with.
    Stopped,
}

impl PlayStatus {
    /// Whether a song is loaded into the audio output.
    pub open spec fn spec_is_loaded(self) -> bool {
        self is Playing || self is Paused
    }

    pub fn is_loaded(&self) -> (loaded: bool)
        ensures
            loaded == self.spec_is_loaded(),
    {
        matches!(self, PlayStatus::Playing(_) | PlayStatus::Paused(_))
    }
}

/// How the playlist is walked, whatever is being played.
#[derive(Clone, Copy, Debug, PartialEq, Eq, Structural)]
pub struct PlayOrderState {
    pub play_mode: PlayMode,
    pub shuffle_state: ShuffleState,
}

/// What one turn of the event loop shows to the interface.
#[derive(Clone, Copy, Debug, PartialEq, Eq, Structural)]
pub struct PlayerStateFrame {
    pub play_status: PlayStatus,
    pub play_order: PlayOrderState,
}

/// The parameters that the event loop takes from the settings.
#[derive(Clone, Debug)]
pub struct PlayerRuntimeConfig {
    pub insert_prefetch_count: usize,
    pub predict_prefetch_count: usize,
    pub history_capacity: usize,
    pub persist_every_ticks: u64,
    pub default_output_check_every_ticks: u64,
    pub player_state_path: String,
}

impl PlayerRuntimeConfig {
    /// Whether these are the parameters that the settings give. The default output device is
    /// looked up after the least number of ticks that spans the check interval, a tick being
    /// at least a millisecond long.
    pub open spec fn is_derived_from(self, config: Config) -> bool {
        let gap = if config.player_event_loop_gap_ms == 0 {
            1
        } else {
            config.player_event_loop_gap_ms as int
        };
        let ticks = self.default_output_check_every_ticks;
        &&& self.insert_prefetch_count == config.insert_prefetch_count
        &&& self.predict_prefetch_count == config.predict_prefetch_count
        &&& self.history_capacity == config.history_capacity
        &&& self.persist_every_ticks == config.persist_every_ticks
        &&& self.player_state_path == config.player_state_path
        &&& ticks >= 1
        &&& (ticks - 1) * gap < Config::PLAYER_DEFAULT_OUTPUT_CHECK_INTERVAL_MS <= ticks * gap
    }

    /// Takes over the settings.
    pub fn from_config(config: &Config) -> (runtime: Self)
        ensures
            runtime.is_derived_from(*config),
            runtime.insert_prefetch_count == config.insert_prefetch_count,
            runtime.predict_prefetch_count == config.predict_prefetch_count,
            runtime.history_capacity == config.history_capacity,
            runtime.persist_every_ticks == config.persist_every_ticks,
            runtime.player_state_path == config.player_state_path,
            config.player_event_loop_gap_ms > 0 ==> (runtime.default_output_check_every_ticks - 1)
                * config.player_event_loop_gap_ms < 1000
                <= runtime.default_output_check_every_ticks * config.player_event_loop_gap_ms,
    {
        let gap_ms: u64 = if config.player_event_loop_gap_ms < 1 {
            1
        } else {
            config.player_event_loop_gap_ms
        };
        let interval_ms: u64 = Config::PLAYER_DEFAULT_OUTPUT_CHECK_INTERVAL_MS;
        let ticks: u64 = (interval_ms - 1) / gap_ms + 1;
        proof {
            let quotient = (interval_ms - 1) as int / gap_ms as int;
            let rest = (interval_ms - 1) as int % gap_ms as int;
            vstd::arithmetic::div_mod::lemma_fundamental_div_mod(
                (interval_ms - 1) as int,
                gap_ms as int,
            );
            vstd::arithmetic::div_mod::lemma_mod_bound((interval_ms - 1) as int, gap_ms as int);
            assert((quotient + 1) * gap_ms == quotient * gap_ms + gap_ms) by (nonlinear_arith);
            assert(gap_ms * quotient == quotient * gap_ms) by (nonlinear_arith);
        }
        PlayerRuntimeConfig {
            insert_prefetch_count: config.insert_prefetch_count,
            predict_prefetch_count: config.predict_prefetch_count,
            history_capacity: config.history_capacity,
            persist_every_ticks: config.persist_every_ticks,
            default_output_check_every_ticks: ticks,
            player_state_path: config.player_state_path.clone(),
        }
    }
}

/// What can be read off the audio output at a moment.
#[derive(Clone, Copy, Debug, PartialEq, Eq, Structural)]
pub struct SinkState {
    pub paused: bool,
    /// Whether no audio is queued.
    pub empty: bool,
    pub position: Position,
    /// The number of the last playback that ran to its natural end, 0 before the first one.
    pub finished_epoch: u64,
}

/// What became of a command.
#[derive(Clone, Debug)]
pub struct Report {
    /// Whether the command succeeded; for a started song, whether it was opened and decoded.
    pub ok: bool,
    /// Whether the seek that a started song asked for succeeded.
    pub seek_ok: bool,
    /// The name of the default output device, for the commands that learn it.
    pub device: Option<String>,
    /// The audio output after the command.
    pub sink: SinkState,
}

/// What is to be done outside the player before an operation can go on.
#[derive(Debug)]
pub enum Command {
    /// Look up the name of the default output device; there may be none.
    QueryDefaultOutput,
    /// Open the default output device, stop the old output and report the device's name.
    RebindOutput,
    Play,
    Pause,
    Stop,
    Seek { position: Position },
    /// Stop the output if asked to, open and decode the file, queue it under the number
    /// `epoch` and play it; then seek and pause if asked to.
    Start {
        path: String,
        epoch: u64,
        stop_first: bool,
        seek_to: Option<Position>,
        pause_after_start: bool,
    },
    /// Stop the output if asked to, and begin to download the songs.
    Download { song_ids: Vec<u64>, stop_first: bool },
}

/// What follows once the current song was asked to start.
#[derive(Clone, Copy, Debug, PartialEq, Eq, Structural)]
pub enum After {
    /// The operation is over.
    Finish,
    /// Seek, or keep the position for later if no song is loaded.
    Seek(Position),
    /// Return to a position if there is one and a song is loaded.
    Restore(Option<Position>),
    /// The rest of a turn of the event loop.
    Tick,
}

/// What follows once the output of a new playback is settled.
#[derive(Clone, Copy, Debug, PartialEq, Eq, Structural)]
pub enum ThenPlay {
    /// Make this song the current one and start it.
    Song(u64),
    /// Start the current song and return to a position.
    Current(Option<Position>),
}

/// What follows once the output of a resumed playback is settled.
#[derive(Clone, Copy, Debug, PartialEq, Eq, Structural)]
pub enum ThenResume {
    /// Let the output play.
    Play,
    /// Let the output play; start the current song instead if the output holds none.
    PlayOrStart(Option<Position>),
}

/// Where an operation stands while a command is carried out.
#[derive(Clone, Copy, Debug, PartialEq, Eq, Structural)]
pub enum Phase {
    /// The default output is looked up before a new playback.
    NewPlaybackDevice(ThenPlay),
    NewPlaybackRebind(ThenPlay),
    /// The default output is looked up before a playback goes on.
    ResumeDevice(ThenResume),
    ResumeRebind { restore: bool, position: Position, then: ThenResume },
    /// The song that was playing is loaded into the new output, paused.
    ResumeRestart(ThenResume),
    Resuming,
    Pausing,
    Seeking,
    Starting { song_id: u64, after: After },
    /// The output was stopped or a download was begun.
    Settling(After),
    /// The default output is looked up in the event loop.
    TickDevice,
    TickPause,
    TickSeek(Position),
}

/// What an operation returns.
#[derive(Debug)]
pub enum Step {
    /// Carry out the command, then report with the phase.
    Wait { command: Command, phase: Phase },
    /// The operation is over.
    Done(PlayStatus),
    /// The turn of the event loop is over; a state that is there is to be written to disk.
    Frame { frame: PlayerStateFrame, persist: Option<PlayerPersistState> },
}

/// A command as contracts speak of it.
pub enum CommandView {
    QueryDefaultOutput,
    RebindOutput,
    Play,
    Pause,
    Stop,
    Seek { position: Position },
    Start {
        path: String,
        epoch: u64,
        stop_first: bool,
        seek_to: Option<Position>,
        pause_after_start: bool,
    },
    Download { song_ids: Seq<u64>, stop_first: bool },
}

impl View for Command {
    type V = CommandView;

    open spec fn view(&self) -> CommandView {
        match *self {
            Command::QueryDefaultOutput => CommandView::QueryDefaultOutput,
            Command::RebindOutput => CommandView::RebindOutput,
            Command::Play => CommandView::Play,
            Command::Pause => CommandView::Pause,
            Command::Stop => CommandView::Stop,
            Command::Seek { position } => CommandView::Seek { position },
            Command::Start { path, epoch, stop_first, seek_to, pause_after_start } =>
                CommandView::Start { path, epoch, stop_first, seek_to, pause_after_start },
            Command::Download { song_ids, stop_first } => CommandView::Download {
                song_ids: song_ids@,
                stop_first,
            },
        }
    }
}

/// A step as contracts speak of it.
pub enum StepView {
    Wait { command: CommandView, phase: Phase },
    Done(PlayStatus),
    Frame { frame: PlayerStateFrame, persist: Option<PersistView> },
}

impl View for Step {
    type V = StepView;

    open spec fn view(&self) -> StepView {
        match *self {
            Step::Wait { command, phase } => StepView::Wait { command: command@, phase },
            Step::Done(status) => StepView::Done(status),
            Step::Frame { frame, persist } => StepView::Frame {
                frame,
                persist: match persist {
                    Some(state) => Some(state@),
                    None => None,
                },
            },
        }
    }
}

/// Everything that the player knows.
#[verifier::ext_equal]
pub struct PlayerState {
    pub playlist: Seq<u64>,
    pub playlist_base: PlaylistBase,
    pub songs: Map<u64, TrackSource>,
    pub mode: PlayMode,
    pub shuffle_state: ShuffleState,
    /// The playlist in its order before it was shuffled.
    pub original_playlist: Option<Seq<u64>>,
    pub history: Seq<u64>,
    pub current_index: Option<int>,
    pub quality: MusicQuality,
    pub runtime_config: PlayerRuntimeConfig,
    pub cache_dir: String,
    /// The songs in a row that could not be played.
    pub error_count: usize,
    /// The last state that was entered, for what the audio output does not show.
    pub last_status: PlayStatus,
    pub last_default_output_device_name: Option<String>,
    pub default_output_switch_pending: bool,
    pub tick_counter: u64,
    pub active_playback_epoch: u64,
    pub handled_finished_epoch: u64,
    /// A position to return to once the current song has started.
    pub pending_seek_after_start: Option<Position>,
}

impl PlayerState {
    /// What every operation keeps: the current song is in the playlist, the unshuffled order
    /// holds the songs of the playlist, and the history is within its bound and free of
    /// repetitions.
    pub open spec fn consistent(self) -> bool {
        &&& self.current_index matches Some(index) ==> 0 <= index < self.playlist.len()
        &&& self.original_playlist matches Some(original) ==> original.to_multiset()
            == self.playlist.to_multiset()
        &&& self.history.len() <= history_bound(self.runtime_config.history_capacity)
        &&& forall|i: int|
            0 < i < self.history.len() ==> #[trigger] self.history[i] != self.history[i - 1]
    }

    /// The identifier of the current song.
    pub open spec fn current_song(self) -> Option<u64> {
        match self.current_index {
            Some(index) if 0 <= index < self.playlist.len() => Some(self.playlist[index]),
            _ => None,
        }
    }

    /// What is known of a song; a song that was never heard of is missing.
    pub open spec fn source_of(self, song_id: u64) -> TrackSource {
        if self.songs.contains_key(song_id) {
            self.songs[song_id]
        } else {
            TrackSource::Missing
        }
    }

    /// What is known of the current song.
    pub open spec fn current_source(self) -> Option<TrackSource> {
        match self.current_song() {
            Some(song_id) => Some(self.source_of(song_id)),
            None => None,
        }
    }

    /// Whether the current song cannot be played before a download ends.
    pub open spec fn current_requires_download(self) -> bool {
        self.current_source() matches Some(source) && (source is Missing || source is Downloading)
    }

    /// What the player is doing: stopped without songs; otherwise what the audio output shows,
    /// and where that shows nothing, the last state entered.
    pub open spec fn status(self, sink: SinkState) -> PlayStatus {
        if self.playlist.len() == 0 {
            PlayStatus::Stopped
        } else if sink.paused {
            PlayStatus::Paused(sink.position)
        } else if !sink.empty {
            PlayStatus::Playing(sink.position)
        } else {
            self.last_status
        }
    }

    /// What the interface is shown.
    pub open spec fn frame(self, sink: SinkState) -> PlayerStateFrame {
        PlayerStateFrame {
            play_status: self.status(sink),
            play_order: PlayOrderState {
                play_mode: self.mode,
                shuffle_state: self.shuffle_state,
            },
        }
    }

    /// The position at which a song that is not loaded was paused.
    pub open spec fn resume_position(self, sink: SinkState) -> Option<Position> {
        match self.last_status {
            PlayStatus::Paused(position) if sink.empty => Some(position),
            _ => None,
        }
    }

    /// The number of the next playback; 0 is never one.
    pub open spec fn next_epoch(self) -> u64 {
        if self.active_playback_epoch == u64::MAX {
            1
        } else {
            (self.active_playback_epoch + 1) as u64
        }
    }

    /// Whether the active playback has come to its natural end and nothing followed from it yet.
    pub open spec fn has_finished(self, sink: SinkState) -> bool {
        &&& self.last_status is Playing
        &&& sink.finished_epoch != 0
        &&& sink.finished_epoch == self.active_playback_epoch
        &&& sink.finished_epoch != self.handled_finished_epoch
    }

    /// The player once it was looked whether the active playback has come to its end.
    pub open spec fn end_taken(self, sink: SinkState) -> PlayerState {
        if self.has_finished(sink) {
            PlayerState { handled_finished_epoch: sink.finished_epoch, ..self }
        } else {
            self
        }
    }

    /// Whether the end of the active playback was taken notice of, or no song was played yet.
    pub open spec fn end_is_handled(self) -> bool {
        self.handled_finished_epoch == self.active_playback_epoch
    }

    /// Whether the known default output device differs from the one that is in use.
    pub open spec fn device_differs(self, device: Option<String>) -> bool {
        device matches Some(name) && !(self.last_default_output_device_name matches Some(last)
            && last@ == name@)
    }
}

/// The most songs that the history holds.
pub open spec fn history_bound(capacity: usize) -> int {
    if capacity == 0 {
        1
    } else {
        capacity as int
    }
}

/// Whether an audio output has something to stop.
pub open spec fn has_audio(sink: SinkState) -> bool {
    !sink.empty || sink.paused
}

} // verus!
