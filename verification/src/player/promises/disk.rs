//! What is written to disk, what is taken over from there, and how a player starts.
use vstd::prelude::*;

use crate::api::MusicQuality;
use crate::player::{PersistedPlayStatus, PlayerRuntimeConfig, PlaylistBase};
use crate::player::persist::{fresh_player, PersistView};
use crate::player::state::{PlayMode, PlayStatus, PlayerState, ShuffleState, SinkState};

verus! {

/// A player that has done nothing yet has no songs, plays in sequence and unshuffled, is stopped,
/// and uses the device that it was given.
pub proof fn lemma_new_player_is_idle(
    runtime_config: PlayerRuntimeConfig,
    cache_dir: String,
    device_name: String,
)
    ensures
        ({
            let player = fresh_player(
                runtime_config,
                cache_dir,
                device_name,
            );
            &&& player.playlist.len() == 0
            &&& player.current_index is None
            &&& player.mode == PlayMode::Sequence
            &&& player.shuffle_state == ShuffleState::Disabled
            &&& player.original_playlist is None
            &&& player.history.len() == 0
            &&& player.last_status == PlayStatus::Stopped
            &&& player.pending_seek_after_start is None
            &&& player.last_default_output_device_name == Some(device_name)
            &&& !player.default_output_switch_pending
            &&& player.active_playback_epoch == 0
            &&& player.handled_finished_epoch == 0
            &&& player.quality == MusicQuality::Standard
            &&& player.playlist_base == PlaylistBase::Nothing
            &&& player.consistent()
        }),
{
}

/// What is written to disk is what the player has: the list, the current song, how it is walked,
/// the old order and the history, and what is done, with the position in milliseconds.
pub proof fn lemma_saved_state_is_the_state(pre: PlayerState, sink: SinkState)
    ensures
        pre.persisted(sink).playlist == pre.playlist,
        pre.persisted(sink).current_index == pre.current_index,
        pre.persisted(sink).mode == pre.mode,
        pre.persisted(sink).shuffle_state == pre.shuffle_state,
        pre.persisted(sink).original_playlist == pre.original_playlist,
        pre.persisted(sink).history == pre.history,
        pre.playlist.len() > 0 && sink.paused && sink.position.nanos / 1_000_000 <= u64::MAX
            ==> pre.persisted(sink).status == PersistedPlayStatus::Paused(
            (sink.position.nanos / 1_000_000) as u64,
        ),
        pre.playlist.len() > 0 && !sink.paused && !sink.empty && sink.position.nanos / 1_000_000
            <= u64::MAX ==> pre.persisted(sink).status
            == PersistedPlayStatus::Playing(
            (sink.position.nanos / 1_000_000) as u64,
        ),
        pre.playlist.len() == 0 ==> pre.persisted(sink).status
            == PersistedPlayStatus::Stopped,
        pre.playlist.len() > 0 && !sink.paused && sink.empty && pre.last_status
            == PlayStatus::Downloading ==> pre.persisted(sink).status
            == PersistedPlayStatus::Downloading,
        pre.playlist.len() > 0 && !sink.paused && sink.empty && pre.last_status
            == PlayStatus::Stopped ==> pre.persisted(sink).status
            == PersistedPlayStatus::Stopped,
{
}

/// A state from disk is taken over as it is. A song that played or was paused there is paused at
/// that millisecond and is sought there when it is started; nothing plays by itself, and no file
/// is known yet. A current song that the list does not have is none.
pub proof fn lemma_state_from_disk_is_taken_over(
    pre: PlayerState,
    saved: PersistView,
    index: int,
    millis: u64,
)
    requires
        0 <= index < saved.playlist.len(),
        saved.current_index == Some(index),
        pre.pending_seek_after_start is None,
    ensures
        pre.restored(saved).playlist == saved.playlist,
        pre.restored(saved).current_index == Some(index),
        pre.restored(saved).mode == saved.mode,
        pre.restored(saved).shuffle_state == saved.shuffle_state,
        saved.original_playlist is Some ==> pre.restored(saved).original_playlist
            == saved.original_playlist,
        saved.original_playlist is None ==> pre.restored(saved).original_playlist == (
        if saved.shuffle_state == ShuffleState::Enabled {
            Some(saved.playlist)
        } else {
            None
        }),
        saved.history.len() <= pre.runtime_config.history_capacity ==> pre.restored(saved).history
            == saved.history,
        pre.restored(saved).songs.dom() == Set::<u64>::empty(),
        saved.status == PersistedPlayStatus::Playing(millis) || saved.status
            == PersistedPlayStatus::Paused(millis) ==> {
            &&& pre.restored(saved).last_status is Paused
            &&& pre.restored(saved).last_status->Paused_0.nanos == millis * 1_000_000
            &&& pre.restored(saved).pending_seek_after_start matches Some(position)
                && position.nanos == millis * 1_000_000
        },
        saved.status == PersistedPlayStatus::Downloading || saved.status
            == PersistedPlayStatus::Stopped ==> {
            &&& pre.restored(saved).last_status == PlayStatus::Stopped
            &&& pre.restored(saved).pending_seek_after_start is None
        },
        pre.restored(saved).active_playback_epoch == pre.active_playback_epoch,
        pre.restored(saved).last_default_output_device_name == pre.last_default_output_device_name,
{
}

} // verus!
