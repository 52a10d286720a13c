//! The player: which song is current, whether it can be played, and what the audio output is
//! to do next.
//!
//! The player itself touches no device, no file and no network. An operation returns a
//! [`Step`]: either its result, or a [`Command`] to carry out together with the [`Phase`] to
//! hand back to [`PlayerCore::report`] once it has been carried out.
use std::collections::{HashMap, VecDeque};

use vstd::prelude::*;

use crate::api::MusicQuality;

pub mod flow;
pub mod laws;
pub mod lists;
pub mod order;
pub mod persist;
pub mod playback;
pub mod promises;
pub mod queue;
pub mod signal;
pub mod state;

pub use self::persist::{PersistedPlayStatus, PlayerPersistState};
pub use self::state::{
    After, Command, Phase, PlayMode, PlayOrderState, PlayStatus, PlayerRuntimeConfig,
    PlayerStateFrame, PlaylistBase, Position, Report, ShuffleState, SinkState, Step, ThenPlay,
    ThenResume, TrackSource,
};

verus! {

/// The state machine of the player. Three layers meet in it: the playlist and how it is
/// walked, what is known of the songs, and what the audio output was last asked for.
pub struct PlayerCore {
    playlist: Vec<u64>,
    playlist_base: PlaylistBase,
    songs: HashMap<u64, TrackSource>,
    mode: PlayMode,
    shuffle_state: ShuffleState,
    original_playlist: Option<Vec<u64>>,
    history: VecDeque<u64>,
    current_index: Option<usize>,
    quality: MusicQuality,
    runtime_config: PlayerRuntimeConfig,
    cache_dir: String,
    error_count: usize,
    last_status: PlayStatus,
    last_default_output_device_name: Option<String>,
    default_output_switch_pending: bool,
    tick_counter: u64,
    active_playback_epoch: u64,
    handled_finished_epoch: u64,
    pending_seek_after_start: Option<Position>,
}

impl View for PlayerCore {
    type V = state::PlayerState;

    closed spec fn view(&self) -> state::PlayerState {
        state::PlayerState {
            playlist: self.playlist@,
            playlist_base: self.playlist_base,
            songs: self.songs@,
            mode: self.mode,
            shuffle_state: self.shuffle_state,
            original_playlist: persist::optional_list(self.original_playlist),
            history: self.history@,
            current_index: persist::optional_index(self.current_index),
            quality: self.quality,
            runtime_config: self.runtime_config,
            cache_dir: self.cache_dir,
            error_count: self.error_count,
            last_status: self.last_status,
            last_default_output_device_name: self.last_default_output_device_name,
            default_output_switch_pending: self.default_output_switch_pending,
            tick_counter: self.tick_counter,
            active_playback_epoch: self.active_playback_epoch,
            handled_finished_epoch: self.handled_finished_epoch,
            pending_seek_after_start: self.pending_seek_after_start,
        }
    }
}

} // verus!
