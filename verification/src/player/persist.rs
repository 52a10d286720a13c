//! What the player writes to disk, and what it takes from there when it starts again.
use std::collections::{HashMap, VecDeque};

use vstd::prelude::*;

use crate::api::MusicQuality;
use crate::config::Config;
use crate::player::lists::copy_songs;
use crate::player::state::{PlayMode, PlayStatus, PlayerState, Position, ShuffleState, SinkState};
use crate::player::{PlayerCore, PlayerRuntimeConfig, PlaylistBase};

verus! {

/// What the player was doing, with positions in milliseconds.
#[derive(Clone, Copy, Debug, PartialEq, Eq, Structural)]
pub enum PersistedPlayStatus {
    Playing(u64),
    Paused(u64),
    Downloading,
    Stopped,
}

/// The part of the player's state that outlives the process.
#[derive(Clone, Debug, PartialEq, Eq)]
pub struct PlayerPersistState {
    pub playlist: Vec<u64>,
    pub current_index: Option<usize>,
    pub mode: PlayMode,
    pub shuffle_state: ShuffleState,
    pub original_playlist: Option<Vec<u64>>,
    pub history: Vec<u64>,
    pub status: PersistedPlayStatus,
}

/// A state on disk as contracts speak of it.
#[verifier::ext_equal]
pub struct PersistView {
    pub playlist: Seq<u64>,
    pub current_index: Option<int>,
    pub mode: PlayMode,
    pub shuffle_state: ShuffleState,
    pub original_playlist: Option<Seq<u64>>,
    pub history: Seq<u64>,
    pub status: PersistedPlayStatus,
}

/// The elements of a list that may be absent.
pub open spec fn optional_list(list: Option<Vec<u64>>) -> Option<Seq<u64>> {
    match list {
        Some(list) => Some(list@),
        None => None,
    }
}

/// An index that may be absent, as an integer.
pub open spec fn optional_index(index: Option<usize>) -> Option<int> {
    match index {
        Some(index) => Some(index as int),
        None => None,
    }
}

impl View for PlayerPersistState {
    type V = PersistView;

    open spec fn view(&self) -> PersistView {
        PersistView {
            playlist: self.playlist@,
            current_index: optional_index(self.current_index),
            mode: self.mode,
            shuffle_state: self.shuffle_state,
            original_playlist: optional_list(self.original_playlist),
            history: self.history@,
            status: self.status,
        }
    }
}

/// The form in which a status is written to disk.
pub open spec fn persisted_status(status: PlayStatus) -> PersistedPlayStatus {
    match status {
        PlayStatus::Playing(position) => PersistedPlayStatus::Playing(position.spec_as_millis()),
        PlayStatus::Paused(position) => PersistedPlayStatus::Paused(position.spec_as_millis()),
        PlayStatus::Downloading => PersistedPlayStatus::Downloading,
        PlayStatus::Stopped => PersistedPlayStatus::Stopped,
    }
}

/// The position that a status on disk holds.
pub open spec fn persisted_position(status: PersistedPlayStatus) -> Option<Position> {
    match status {
        PersistedPlayStatus::Playing(millis) => Some(Position::spec_from_millis(millis)),
        PersistedPlayStatus::Paused(millis) => Some(Position::spec_from_millis(millis)),
        PersistedPlayStatus::Downloading => None,
        PersistedPlayStatus::Stopped => None,
    }
}

impl PlayerState {
    /// The state that is written to disk.
    pub open spec fn persisted(self, sink: SinkState) -> PersistView {
        PersistView {
            playlist: self.playlist,
            current_index: self.current_index,
            mode: self.mode,
            shuffle_state: self.shuffle_state,
            original_playlist: self.original_playlist,
            history: self.history,
            status: persisted_status(self.status(sink)),
        }
    }

    /// The player after it took over a state from disk. The songs, the current one and the
    /// order come back. A song that was playing or paused is paused where it was; nothing
    /// plays by itself.
    pub open spec fn restored(self, saved: PersistView) -> PlayerState {
        let current_index = match saved.current_index {
            Some(index) if index < saved.playlist.len() => Some(index),
            _ => None,
        };
        let position = match current_index {
            Some(_) => persisted_position(saved.status),
            None => None,
        };
        PlayerState {
            playlist: saved.playlist,
            current_index,
            mode: saved.mode,
            shuffle_state: saved.shuffle_state,
            original_playlist: match saved.original_playlist {
                None if saved.shuffle_state is Enabled => Some(saved.playlist),
                original => original,
            },
            history: if saved.history.len() <= self.runtime_config.history_capacity {
                saved.history
            } else {
                saved.history.take(self.runtime_config.history_capacity as int)
            },
            songs: Map::empty(),
            last_status: match position {
                Some(position) => PlayStatus::Paused(position),
                None => PlayStatus::Stopped,
            },
            pending_seek_after_start: match current_index {
                None => None,
                Some(_) => match position {
                    None => self.pending_seek_after_start,
                    position => position,
                },
            },
            ..self
        }
    }
}

/// A player that has done nothing yet.
pub open spec fn fresh_player(
    runtime_config: PlayerRuntimeConfig,
    cache_dir: String,
    device_name: String,
) -> PlayerState {
    PlayerState {
        playlist: Seq::empty(),
        playlist_base: PlaylistBase::Nothing,
        songs: Map::empty(),
        mode: PlayMode::Sequence,
        shuffle_state: ShuffleState::Disabled,
        original_playlist: None,
        history: Seq::empty(),
        current_index: None,
        quality: MusicQuality::Standard,
        runtime_config,
        cache_dir,
        error_count: 0,
        last_status: PlayStatus::Stopped,
        last_default_output_device_name: Some(device_name),
        default_output_switch_pending: false,
        tick_counter: 0,
        active_playback_epoch: 0,
        handled_finished_epoch: 0,
        pending_seek_after_start: None,
    }
}

impl PlayerCore {
    /// A player on the given output device. It takes over the state from disk if there is one.
    pub fn new(
        config: &Config,
        device_name: String,
        saved: Option<PlayerPersistState>,
    ) -> (player: Self)
        ensures
            player@ == (match saved {
                Some(saved) => fresh_player(
                    player@.runtime_config,
                    config.cache_dir,
                    device_name,
                ).restored(saved@),
                None => fresh_player(player@.runtime_config, config.cache_dir, device_name),
            }),
            player@.runtime_config.is_derived_from(*config),
            saved is None ==> player@.consistent(),
    {
        let mut player = PlayerCore {
            playlist: Vec::new(),
            playlist_base: PlaylistBase::Nothing,
            songs: HashMap::new(),
            mode: PlayMode::Sequence,
            shuffle_state: ShuffleState::Disabled,
            original_playlist: None,
            history: VecDeque::new(),
            current_index: None,
            quality: MusicQuality::Standard,
            runtime_config: PlayerRuntimeConfig::from_config(config),
            cache_dir: config.cache_dir.clone(),
            error_count: 0,
            last_status: PlayStatus::Stopped,
            last_default_output_device_name: Some(device_name),
            default_output_switch_pending: false,
            tick_counter: 0,
            active_playback_epoch: 0,
            handled_finished_epoch: 0,
            pending_seek_after_start: None,
        };
        if let Some(saved) = saved {
            player.load_persisted_state(saved);
        }
        player
    }

    /// Takes over a state from disk.
    pub fn load_persisted_state(&mut self, saved: PlayerPersistState)
        ensures
            final(self)@ == old(self)@.restored(saved@),
    {
        self.current_index = match saved.current_index {
            Some(index) if index < saved.playlist.len() => Some(index),
            _ => None,
        };
        self.playlist = saved.playlist;
        self.mode = saved.mode;
        self.shuffle_state = saved.shuffle_state;
        self.original_playlist = saved.original_playlist;
        if self.shuffle_state == ShuffleState::Enabled && self.original_playlist.is_none() {
            self.original_playlist = Some(copy_songs(&self.playlist));
        }
        self.history = VecDeque::new();
        let capacity = self.runtime_config.history_capacity;
        let mut i: usize = 0;
        while i < saved.history.len() && i < capacity
            invariant
                i <= saved.history.len(),
                i <= capacity,
                self.history@ == saved.history@.take(i as int),
                self@ == (PlayerState {
                    playlist: saved.playlist@,
                    current_index: old(self)@.restored(saved@).current_index,
                    mode: saved.mode,
                    shuffle_state: saved.shuffle_state,
                    original_playlist: old(self)@.restored(saved@).original_playlist,
                    history: saved.history@.take(i as int),
                    ..old(self)@
                }),
            decreases saved.history.len() - i,
        {
            self.history.push_back(saved.history[i]);
            assert(self.history@ =~= saved.history@.take(i + 1));
            i += 1;
        }
        assert(saved.history@.take(saved.history@.len() as int) =~= saved.history@);
        self.songs = HashMap::new();
        self.last_status = match saved.status {
            PersistedPlayStatus::Playing(millis) => {
                let position = Position::from_millis(millis);
                self.pending_seek_after_start = Some(position);
                PlayStatus::Paused(position)
            },
            PersistedPlayStatus::Paused(millis) => {
                let position = Position::from_millis(millis);
                self.pending_seek_after_start = Some(position);
                PlayStatus::Paused(position)
            },
            PersistedPlayStatus::Downloading => PlayStatus::Stopped,
            PersistedPlayStatus::Stopped => PlayStatus::Stopped,
        };
        if self.current_index.is_none() {
            self.last_status = PlayStatus::Stopped;
            self.pending_seek_after_start = None;
        }
    }

    /// The quality that songs are fetched in.
    pub fn quality(&self) -> (quality: MusicQuality)
        ensures
            quality == self@.quality,
    {
        self.quality
    }
}

/// The name under which a state is written before it takes the place of the old one.
pub fn tmp_state_name(name: &str) -> (tmp_name: String)
    ensures
        tmp_name@ == name@ + ".tmp"@,
{
    let mut tmp_name = name.to_string();
    tmp_name.append(Config::PLAYER_STATE_TMP_SUFFIX);
    tmp_name
}

} // verus!
