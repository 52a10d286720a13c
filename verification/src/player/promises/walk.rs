//! Which song follows which, what starting a song takes, and what a turn of the event loop does.
use vstd::prelude::*;

use crate::player::flow::lemma_patience_shrinks;
use crate::player::laws::lemma_predicted_songs;
use crate::player::order::{ascending, lemma_ascending};
use crate::player::state::{
    After, CommandView, Phase, PlayMode, PlayStatus, PlayerState, Report, ShuffleState, SinkState,
    StepView, TrackSource,
};

verus! {

/// The next song is the one behind the current song, however the list is played. Behind the last
/// song of a shuffled list its songs follow in a new order; behind that of a looped list, the
/// first song; behind that of any other list, none. Without a current song it is the first one.
pub proof fn lemma_next_song_is_the_one_behind(pre: PlayerState, next: PlayerState)
    requires
        pre.moved_to_next(next),
        pre.current_index matches Some(index) ==> 0 <= index,
    ensures
        next == (PlayerState {
            playlist: next.playlist,
            current_index: next.current_index,
            ..pre
        }),
        pre.current_index matches Some(index) ==> index + 1 < pre.playlist.len() ==> next.playlist
            == pre.playlist && next.current_index == Some(index + 1),
        pre.current_index matches Some(index) ==> index + 1 >= pre.playlist.len() && 0
            < pre.playlist.len() && pre.shuffle_state == ShuffleState::Enabled
            ==> next.current_index == Some(0int) && (match pre.original_playlist {
            Some(original) => next.playlist.to_multiset() == original.to_multiset(),
            None => next.playlist.to_multiset() == pre.playlist.to_multiset(),
        }),
        pre.current_index matches Some(index) ==> index + 1 >= pre.playlist.len()
            && pre.shuffle_state == ShuffleState::Disabled ==> next.playlist == pre.playlist
            && next.current_index == (if pre.mode == PlayMode::LoopAll {
            Some(0int)
        } else {
            None
        }),
        pre.current_index is None ==> next.playlist == pre.playlist && next.current_index == (
        if pre.playlist.len() > 0 {
            Some(0int)
        } else {
            None
        }),
{
}

/// The previous song is the one before the current song. Before the first song of a looped list
/// comes the last one; of any other list, the first one again. Without a current song it is the
/// first one.
pub proof fn lemma_previous_song_is_the_one_before(pre: PlayerState)
    requires
        pre.current_index matches Some(index) ==> 0 <= index,
    ensures
        pre.playlist.len() == 0 ==> pre.prev_index() is None,
        pre.playlist.len() > 0 && pre.current_index is None ==> pre.prev_index() == Some(0int),
        pre.playlist.len() > 0 ==> (pre.current_index matches Some(index) ==> pre.prev_index()
            == (if index > 0 {
            Some(index - 1)
        } else if pre.mode == PlayMode::LoopAll {
            Some(pre.playlist.len() - 1)
        } else {
            Some(0int)
        })),
{
}

/// A song that is ready is started from its file: what the output still holds is stopped first,
/// a position that waits is sought, and the playback gets a number of its own. Nothing else
/// changes before the output has answered.
pub proof fn lemma_ready_song_is_started(
    pre: PlayerState,
    index: int,
    path: String,
    after: After,
    sink: SinkState,
    post: PlayerState,
    step: StepView,
)
    requires
        pre.started(after, sink, post, step),
        pre.current_index == Some(index),
        0 <= index < pre.playlist.len(),
        pre.songs.contains_key(pre.playlist[index]),
        pre.songs[pre.playlist[index]] == TrackSource::Ready(path),
    ensures
        post == pre,
        step == (StepView::Wait {
            command: CommandView::Start {
                path,
                epoch: if pre.active_playback_epoch == u64::MAX {
                    1u64
                } else {
                    (pre.active_playback_epoch + 1) as u64
                },
                stop_first: !sink.empty || sink.paused,
                seek_to: pre.pending_seek_after_start,
                pause_after_start: false,
            },
            phase: Phase::Starting { song_id: pre.playlist[index], after },
        }),
{
}

/// A song of which nothing is known, or which is known to be missing, is downloaded, and the
/// player waits for it in silence. With it come songs from further down the list only.
pub proof fn lemma_missing_song_is_downloaded(
    pre: PlayerState,
    index: int,
    after: After,
    sink: SinkState,
    post: PlayerState,
    step: StepView,
)
    requires
        pre.started(after, sink, post, step),
        pre.current_index == Some(index),
        0 <= index < pre.playlist.len(),
        pre.songs.contains_key(pre.playlist[index]) ==> pre.songs[pre.playlist[index]]
            == TrackSource::Missing,
    ensures
        post == (PlayerState {
            songs: pre.songs.insert(pre.playlist[index], TrackSource::Missing),
            last_status: PlayStatus::Downloading,
            ..pre
        }),
        step matches StepView::Wait {
            command: CommandView::Download { song_ids, stop_first },
            phase,
        } && {
            &&& song_ids.contains(pre.playlist[index])
            &&& stop_first == (!sink.empty || sink.paused)
            &&& phase == Phase::Settling(after)
            &&& forall|i: int, j: int| 0 <= i < j < song_ids.len() ==> song_ids[i] < song_ids[j]
            &&& forall|song_id: u64| #[trigger]
                song_ids.contains(song_id) && song_id != pre.playlist[index] ==> exists|j: int|
                    index < j < pre.playlist.len() && #[trigger] pre.playlist[j] == song_id
        },
{
    let song_id = pre.playlist[index];
    let waiting = pre.with_source(song_id, TrackSource::Missing).with_status(
        PlayStatus::Downloading,
    );
    let members = seq![song_id] + waiting.predicted();
    lemma_ascending(members);
    lemma_predicted_songs(waiting);
    let song_ids = ascending(members);
    assert(members[0] == song_id);
    assert(members.contains(song_id));
    assert forall|other: u64| #[trigger]
        song_ids.contains(other) && other != song_id implies exists|j: int|
        index < j < pre.playlist.len() && #[trigger] pre.playlist[j] == other by {
        let i = choose|i: int| 0 <= i < members.len() && members[i] == other;
        assert(waiting.predicted()[i - 1] == other);
        assert(waiting.predicted().contains(other));
        let k = choose|k: int| 0 <= k < waiting.upcoming().len() && waiting.upcoming()[k] == other;
        assert(pre.playlist[index + 1 + k] == other);
    }
}

/// A song that is on its way is waited for in silence: what the output still holds is stopped,
/// and nothing is started or downloaded.
pub proof fn lemma_awaited_song_is_waited_for(
    pre: PlayerState,
    index: int,
    after: After,
    sink: SinkState,
    post: PlayerState,
    step: StepView,
)
    requires
        pre.started(after, sink, post, step),
        pre.current_index == Some(index),
        0 <= index < pre.playlist.len(),
        pre.songs.contains_key(pre.playlist[index]),
        pre.songs[pre.playlist[index]] == TrackSource::Downloading,
    ensures
        !sink.empty || sink.paused ==> {
            &&& post == (PlayerState { last_status: PlayStatus::Downloading, ..pre })
            &&& step == (StepView::Wait {
                command: CommandView::Stop,
                phase: Phase::Settling(after),
            })
        },
        sink.empty && !sink.paused && after == After::Finish ==> {
            &&& post == (PlayerState { last_status: PlayStatus::Downloading, ..pre })
            &&& step == StepView::Done(PlayStatus::Downloading)
        },
        post.last_status == PlayStatus::Downloading,
        post.current_index == pre.current_index,
        step matches StepView::Wait { command, .. } ==> !(command is Start) && !(
        command is Download),
{
}

/// Songs that are known not to be playable are passed over, one after the other, until one may be
/// playable; that one is then the current song. They count as failures in a row.
pub proof fn lemma_unplayable_songs_are_passed_over(
    pre: PlayerState,
    index: int,
    target: int,
    after: After,
    sink: SinkState,
    post: PlayerState,
    step: StepView,
)
    requires
        pre.started(after, sink, post, step),
        pre.current_index == Some(index),
        0 <= index <= target < pre.playlist.len(),
        forall|k: int|
            index <= k < target ==> pre.songs.contains_key(#[trigger] pre.playlist[k])
                && pre.songs[pre.playlist[k]] == TrackSource::Unplayable,
        pre.songs.contains_key(pre.playlist[target]) ==> pre.songs[pre.playlist[target]]
            != TrackSource::Unplayable,
        pre.error_count + (target - index) < pre.playlist.len(),
        pre.error_count + (target - index) < usize::MAX,
    ensures
        post.current_index == Some(target),
        post.playlist == pre.playlist,
        post.error_count == pre.error_count + (target - index),
        (PlayerState {
            current_index: Some(target),
            error_count: (pre.error_count + (target - index)) as usize,
            ..pre
        }).started(after, sink, post, step),
    decreases target - index,
{
    if index < target {
        assert(pre.songs.contains_key(pre.playlist[index]));
        let counted = pre.with_failure();
        assert(pre.failed(after, sink, post, step));
        let next = choose|next: PlayerState| #[trigger]
            counted.moved_to_next(next) && next.started(after, sink, post, step);
        assert(next == (PlayerState { current_index: Some(index + 1), ..counted }));
        lemma_unplayable_songs_are_passed_over(next, index + 1, target, after, sink, post, step);
        assert(PlayerState {
            current_index: Some(target),
            error_count: (pre.error_count + (target - index)) as usize,
            ..pre
        } == (PlayerState {
            current_index: Some(target),
            error_count: (next.error_count + (target - (index + 1))) as usize,
            ..next
        }));
    } else {
        assert(PlayerState {
            current_index: Some(target),
            error_count: (pre.error_count + (target - index)) as usize,
            ..pre
        } == pre);
    }
}

/// When a song has come to its end and one song is not looped, the song behind it is the current
/// one, in the order in which the list is walked, shuffled or not: it is started if it is ready,
/// downloaded if it is missing, and waited for if it is on its way. A song that is known not to
/// be playable is passed over instead.
pub proof fn lemma_end_of_a_song_leads_to_the_next(
    pre: PlayerState,
    index: int,
    path: String,
    sink: SinkState,
    post: PlayerState,
    step: StepView,
)
    requires
        pre.ticked(sink, post, step),
        pre.current_index == Some(index),
        0 <= index,
        index + 1 < pre.playlist.len(),
        pre.mode != PlayMode::LoopOne,
        !sink.paused,
        pre.last_status is Playing,
        sink.finished_epoch != 0,
        sink.finished_epoch == pre.active_playback_epoch,
        sink.finished_epoch != pre.handled_finished_epoch,
        pre.songs.contains_key(pre.playlist[index + 1]) ==> pre.songs[pre.playlist[index + 1]]
            != TrackSource::Unplayable,
    ensures
        post.current_index == Some(index + 1),
        post.playlist == pre.playlist,
        post.handled_finished_epoch == sink.finished_epoch,
        pre.songs.contains_key(pre.playlist[index + 1]) && pre.songs[pre.playlist[index + 1]]
            == TrackSource::Ready(path) ==> step == (StepView::Wait {
            command: CommandView::Start {
                path,
                epoch: if pre.active_playback_epoch == u64::MAX {
                    1u64
                } else {
                    (pre.active_playback_epoch + 1) as u64
                },
                stop_first: !sink.empty || sink.paused,
                seek_to: pre.pending_seek_after_start,
                pause_after_start: false,
            },
            phase: Phase::Starting { song_id: pre.playlist[index + 1], after: After::Tick },
        }),
        !pre.songs.contains_key(pre.playlist[index + 1]) || pre.songs[pre.playlist[index + 1]]
            == TrackSource::Missing ==> {
            &&& post.last_status == PlayStatus::Downloading
            &&& step matches StepView::Wait {
                command: CommandView::Download { song_ids, stop_first },
                ..
            } && song_ids.contains(pre.playlist[index + 1]) && stop_first == !sink.empty
        },
        pre.songs.contains_key(pre.playlist[index + 1]) && pre.songs[pre.playlist[index + 1]]
            == TrackSource::Downloading ==> post.last_status == PlayStatus::Downloading,
{
    let handled = PlayerState { handled_finished_epoch: sink.finished_epoch, ..pre };
    let next = choose|next: PlayerState| #[trigger]
        handled.moved_to_next(next) && next.started(After::Tick, sink, post, step);
    lemma_next_song_is_the_one_behind(handled, next);
    let song_id = pre.playlist[index + 1];
    if next.songs.contains_key(song_id) && next.songs[song_id] == TrackSource::Downloading {
        lemma_awaited_song_is_waited_for(next, index + 1, After::Tick, sink, post, step);
    } else if !next.songs.contains_key(song_id) || next.songs[song_id] == TrackSource::Missing {
        lemma_missing_song_is_downloaded(next, index + 1, After::Tick, sink, post, step);
    } else {
        let ready = next.songs[song_id]->Ready_0;
        lemma_ready_song_is_started(next, index + 1, ready, After::Tick, sink, post, step);
    }
}

/// When a song has come to its end and one song is looped, the same song is started again.
pub proof fn lemma_looped_song_is_repeated(
    pre: PlayerState,
    index: int,
    path: String,
    sink: SinkState,
    post: PlayerState,
    step: StepView,
)
    requires
        pre.ticked(sink, post, step),
        pre.current_index == Some(index),
        0 <= index < pre.playlist.len(),
        pre.mode == PlayMode::LoopOne,
        !sink.paused,
        pre.last_status is Playing,
        sink.finished_epoch != 0,
        sink.finished_epoch == pre.active_playback_epoch,
        sink.finished_epoch != pre.handled_finished_epoch,
        pre.songs.contains_key(pre.playlist[index]),
        pre.songs[pre.playlist[index]] == TrackSource::Ready(path),
    ensures
        post == (PlayerState { handled_finished_epoch: sink.finished_epoch, ..pre }),
        step matches StepView::Wait {
            command: CommandView::Start { path: started, stop_first, .. },
            phase,
        } && started == path && stop_first == !sink.empty && phase == (Phase::Starting {
            song_id: pre.playlist[index],
            after: After::Tick,
        }),
{
    let handled = PlayerState { handled_finished_epoch: sink.finished_epoch, ..pre };
    lemma_ready_song_is_started(handled, index, path, After::Tick, sink, post, step);
}

/// When the last song of a list that is neither shuffled nor looped has come to its end, the
/// player stops: no song is current, and nothing is started or downloaded.
pub proof fn lemma_list_ends_after_its_last_song(
    pre: PlayerState,
    sink: SinkState,
    post: PlayerState,
    step: StepView,
)
    requires
        pre.ticked(sink, post, step),
        0 < pre.playlist.len(),
        pre.current_index == Some(pre.playlist.len() - 1),
        pre.mode == PlayMode::Sequence,
        pre.shuffle_state == ShuffleState::Disabled,
        !sink.paused,
        pre.last_status is Playing,
        sink.finished_epoch != 0,
        sink.finished_epoch == pre.active_playback_epoch,
        sink.finished_epoch != pre.handled_finished_epoch,
    ensures
        post.current_index is None,
        post.playlist == pre.playlist,
        post.last_status == PlayStatus::Stopped,
        step matches StepView::Wait { command, .. } ==> !(command is Start) && !(
        command is Download),
{
    let handled = PlayerState { handled_finished_epoch: sink.finished_epoch, ..pre };
    let next = choose|next: PlayerState| #[trigger]
        handled.moved_to_next(next) && next.started(After::Tick, sink, post, step);
    lemma_next_song_is_the_one_behind(handled, next);
}

/// When the last song of a list that is looped and not shuffled has come to its end, the list
/// starts again with its first song.
pub proof fn lemma_looped_list_starts_again(
    pre: PlayerState,
    path: String,
    sink: SinkState,
    post: PlayerState,
    step: StepView,
)
    requires
        pre.ticked(sink, post, step),
        0 < pre.playlist.len(),
        pre.current_index == Some(pre.playlist.len() - 1),
        pre.mode == PlayMode::LoopAll,
        pre.shuffle_state == ShuffleState::Disabled,
        !sink.paused,
        pre.last_status is Playing,
        sink.finished_epoch != 0,
        sink.finished_epoch == pre.active_playback_epoch,
        sink.finished_epoch != pre.handled_finished_epoch,
        pre.songs.contains_key(pre.playlist[0]),
        pre.songs[pre.playlist[0]] == TrackSource::Ready(path),
    ensures
        post.current_index == Some(0int),
        post.playlist == pre.playlist,
        step matches StepView::Wait { command: CommandView::Start { path: started, .. }, .. }
            && started == path,
{
    let handled = PlayerState { handled_finished_epoch: sink.finished_epoch, ..pre };
    let next = choose|next: PlayerState| #[trigger]
        handled.moved_to_next(next) && next.started(After::Tick, sink, post, step);
    lemma_next_song_is_the_one_behind(handled, next);
    lemma_ready_song_is_started(next, 0, path, After::Tick, sink, post, step);
}

/// When the last song of a shuffled list has come to its end, all its songs follow in a new
/// order, whatever the play mode but the looping of one song, and the first of them is started.
pub proof fn lemma_shuffled_list_starts_again(
    pre: PlayerState,
    sink: SinkState,
    post: PlayerState,
    step: StepView,
)
    requires
        pre.ticked(sink, post, step),
        pre.consistent(),
        0 < pre.playlist.len(),
        pre.current_index == Some(pre.playlist.len() - 1),
        pre.mode != PlayMode::LoopOne,
        pre.shuffle_state == ShuffleState::Enabled,
        !sink.paused,
        pre.last_status is Playing,
        sink.finished_epoch != 0,
        sink.finished_epoch == pre.active_playback_epoch,
        sink.finished_epoch != pre.handled_finished_epoch,
        forall|i: int|
            0 <= i < pre.playlist.len() ==> pre.songs.contains_key(#[trigger] pre.playlist[i])
                && pre.songs[pre.playlist[i]] is Ready,
    ensures
        post.current_index == Some(0int),
        post.playlist.to_multiset() == pre.playlist.to_multiset(),
        post.original_playlist == pre.original_playlist,
        post.playlist.len() == pre.playlist.len(),
        step matches StepView::Wait { command: CommandView::Start { path, .. }, .. }
            && TrackSource::Ready(path) == pre.songs[post.playlist[0]],
{
    let handled = PlayerState { handled_finished_epoch: sink.finished_epoch, ..pre };
    let next = choose|next: PlayerState| #[trigger]
        handled.moved_to_next(next) && next.started(After::Tick, sink, post, step);
    lemma_next_song_is_the_one_behind(handled, next);
    pre.playlist.to_multiset_ensures();
    next.playlist.to_multiset_ensures();
    let first = next.playlist[0];
    assert(next.playlist.contains(first));
    assert(pre.playlist.to_multiset().count(first) > 0);
    assert(pre.playlist.contains(first));
    let i = choose|i: int| 0 <= i < pre.playlist.len() && pre.playlist[i] == first;
    assert(pre.songs.contains_key(pre.playlist[i]));
    let path = pre.songs[first]->Ready_0;
    lemma_ready_song_is_started(next, 0, path, After::Tick, sink, post, step);
}

/// A paused output stays paused, whatever else there is: its position is taken over, and no song
/// is started or downloaded.
pub proof fn lemma_pause_lasts(
    pre: PlayerState,
    sink: SinkState,
    post: PlayerState,
    step: StepView,
)
    requires
        pre.ticked(sink, post, step),
        0 < pre.playlist.len(),
        pre.current_index is Some,
        sink.paused,
    ensures
        post.last_status == PlayStatus::Paused(sink.position),
        post.current_index == pre.current_index,
        post.playlist == pre.playlist,
        post.songs == pre.songs,
        match pre.pending_seek_after_start {
            None => step matches StepView::Frame { frame, .. } && frame.play_status
                == PlayStatus::Paused(sink.position),
            Some(position) => step == (StepView::Wait {
                command: CommandView::Seek { position },
                phase: Phase::TickSeek(position),
            }),
        },
{
}

/// While a song plays and has not ended, the player follows its position and changes nothing of
/// what is played. A seek that waited is tried.
pub proof fn lemma_playing_song_is_followed(
    pre: PlayerState,
    sink: SinkState,
    post: PlayerState,
    step: StepView,
)
    requires
        pre.ticked(sink, post, step),
        0 < pre.playlist.len(),
        pre.current_index is Some,
        pre.last_status != PlayStatus::Downloading,
        !sink.paused,
        !sink.empty,
        sink.finished_epoch != pre.active_playback_epoch || sink.finished_epoch
            == pre.handled_finished_epoch,
    ensures
        post.last_status == PlayStatus::Playing(sink.position),
        post.current_index == pre.current_index,
        post.playlist == pre.playlist,
        post.songs == pre.songs,
        post.active_playback_epoch == pre.active_playback_epoch,
        match pre.pending_seek_after_start {
            None => step matches StepView::Frame { frame, .. } && frame.play_status
                == PlayStatus::Playing(sink.position),
            Some(position) => step == (StepView::Wait {
                command: CommandView::Seek { position },
                phase: Phase::TickSeek(position),
            }),
        },
{
}

/// A song that was waited for is started in the first turn after its file came. Before that the
/// player goes on waiting.
pub proof fn lemma_awaited_song_is_started_when_it_came(
    pre: PlayerState,
    index: int,
    path: String,
    sink: SinkState,
    post: PlayerState,
    step: StepView,
)
    requires
        pre.ticked(sink, post, step),
        pre.current_index == Some(index),
        0 <= index < pre.playlist.len(),
        pre.last_status == PlayStatus::Downloading,
        !sink.paused,
    ensures
        pre.songs.contains_key(pre.playlist[index]) && pre.songs[pre.playlist[index]]
            == TrackSource::Ready(path) ==> {
            &&& post == pre
            &&& step matches StepView::Wait {
                command: CommandView::Start { path: started, seek_to, stop_first, .. },
                phase,
            } && started == path && seek_to == pre.pending_seek_after_start && stop_first
                == !sink.empty && phase == (Phase::Starting {
                song_id: pre.playlist[index],
                after: After::Tick,
            })
        },
        !pre.songs.contains_key(pre.playlist[index]) || pre.songs[pre.playlist[index]]
            == TrackSource::Missing || pre.songs[pre.playlist[index]] == TrackSource::Downloading
            ==> {
            &&& post.last_status == PlayStatus::Downloading
            &&& post.current_index == pre.current_index
            &&& post.songs == pre.songs
            &&& step matches StepView::Wait { command, .. } ==> command is Seek
        },
{
    let song_id = pre.playlist[index];
    if pre.songs.contains_key(song_id) && pre.songs[song_id] == TrackSource::Ready(path) {
        lemma_ready_song_is_started(pre, index, path, After::Tick, sink, post, step);
    }
}

/// Without songs the player is stopped; with songs but no current one, the first one is started.
pub proof fn lemma_event_loop_finds_a_song(
    pre: PlayerState,
    path: String,
    sink: SinkState,
    post: PlayerState,
    step: StepView,
)
    requires
        pre.ticked(sink, post, step),
    ensures
        pre.playlist.len() == 0 ==> {
            &&& post.current_index is None
            &&& post.last_status == PlayStatus::Stopped
            &&& step matches StepView::Frame { frame, .. } && frame.play_status
                == PlayStatus::Stopped
        },
        pre.playlist.len() > 0 && pre.current_index is None && pre.songs.contains_key(
            pre.playlist[0],
        ) && pre.songs[pre.playlist[0]] == TrackSource::Ready(path) ==> {
            &&& post.current_index == Some(0int)
            &&& step matches StepView::Wait {
                command: CommandView::Start { path: started, .. },
                ..
            } && started == path
        },
{
}

/// The interface is shown what the output does, and where the output is silent, the last state of
/// the player; and the play mode and whether the list is shuffled as they are.
pub proof fn lemma_frame_shows_the_player(pre: PlayerState, sink: SinkState)
    ensures
        pre.frame(sink).play_order.play_mode == pre.mode,
        pre.frame(sink).play_order.shuffle_state == pre.shuffle_state,
        pre.frame(sink).play_status == pre.status(sink),
        pre.playlist.len() == 0 ==> pre.status(sink) == PlayStatus::Stopped,
        pre.playlist.len() > 0 && sink.paused ==> pre.status(sink) == PlayStatus::Paused(
            sink.position,
        ),
        pre.playlist.len() > 0 && !sink.paused && !sink.empty ==> pre.status(sink)
            == PlayStatus::Playing(sink.position),
        pre.playlist.len() > 0 && !sink.paused && sink.empty ==> pre.status(sink)
            == pre.last_status,
{
}

/// Every turn of the event loop is counted when it ends. The state is handed out to be written to
/// disk at every so many turns, as the settings say, and it is the state that the player is in.
pub proof fn lemma_turns_are_counted(
    pre: PlayerState,
    sink: SinkState,
    post: PlayerState,
    step: StepView,
)
    requires
        pre.ticked(sink, post, step),
        step is Frame,
    ensures
        post.tick_counter == (if pre.tick_counter == u64::MAX {
            u64::MAX as int
        } else {
            pre.tick_counter + 1
        }),
        step->frame.play_order.play_mode == post.mode,
        step->frame.play_order.shuffle_state == post.shuffle_state,
        post.playlist.len() > 0 && sink.paused ==> step->frame.play_status == PlayStatus::Paused(
            sink.position,
        ),
        step->persist is Some <==> pre.runtime_config.persist_every_ticks > 0 && post.tick_counter
            % pre.runtime_config.persist_every_ticks == 0,
        step->persist matches Some(saved) ==> {
            &&& saved.playlist == post.playlist
            &&& saved.current_index == post.current_index
            &&& saved.mode == post.mode
            &&& saved.shuffle_state == post.shuffle_state
            &&& saved.original_playlist == post.original_playlist
            &&& saved.history == post.history
        },
{
    lemma_turn_ends(pre, sink, post, step);
}

proof fn lemma_turn_ends(pre: PlayerState, sink: SinkState, post: PlayerState, step: StepView)
    requires
        pre.ticked(sink, post, step),
        step is Frame,
    ensures
        exists|last: PlayerState|
            last.tick_counter == pre.tick_counter && last.runtime_config == pre.runtime_config && (
            post,
            step,
        ) == #[trigger] last.tick_finished(sink),
{
    let handled = PlayerState { handled_finished_epoch: sink.finished_epoch, ..pre };
    if pre.playlist.len() == 0 {
        let last = pre.with_index(None).with_status(PlayStatus::Stopped);
        assert((post, step) == last.tick_finished(sink));
    } else if pre.current_index is None {
        lemma_start_ends_turn(pre.with_index(Some(0)), sink, post, step);
    } else if sink.paused {
        let last = pre.with_status(PlayStatus::Paused(sink.position));
        assert((post, step) == last.tick_finished(sink));
    } else if pre.last_status is Downloading {
        if pre.current_source() is None {
            let last = pre.with_status(PlayStatus::Stopped);
            assert((post, step) == last.tick_finished(sink));
        } else if pre.current_requires_download() {
            assert((post, step) == pre.tick_finished(sink));
        } else {
            lemma_start_ends_turn(pre, sink, post, step);
        }
    } else if pre.has_finished(sink) {
        if pre.mode is LoopOne {
            lemma_start_ends_turn(handled, sink, post, step);
        } else {
            let next = choose|next: PlayerState| #[trigger]
                handled.moved_to_next(next) && next.started(After::Tick, sink, post, step);
            lemma_start_ends_turn(next, sink, post, step);
        }
    } else if !sink.empty {
        let last = pre.with_status(PlayStatus::Playing(sink.position));
        assert((post, step) == last.tick_finished(sink));
    } else {
        assert((post, step) == pre.tick_finished(sink));
    }
}

proof fn lemma_start_ends_turn(pre: PlayerState, sink: SinkState, post: PlayerState, step: StepView)
    requires
        pre.started(After::Tick, sink, post, step),
        step is Frame,
    ensures
        exists|last: PlayerState|
            last.tick_counter == pre.tick_counter && last.runtime_config == pre.runtime_config && (
            post,
            step,
        ) == #[trigger] last.tick_finished(sink),
    decreases pre.patience(), 1nat,
{
    if pre.current_source() matches Some(TrackSource::Unplayable) {
        let counted = pre.with_failure();
        if pre.has_patience() {
            let next = choose|next: PlayerState| #[trigger]
                counted.moved_to_next(next) && next.started(After::Tick, sink, post, step);
            lemma_patience_shrinks(pre, next);
            lemma_start_ends_turn(next, sink, post, step);
        } else {
            let last = counted.with_status(PlayStatus::Stopped);
            assert((post, step) == last.tick_finished(sink));
        }
    } else if pre.current_song() is None {
        let last = pre.with_status(PlayStatus::Stopped);
        assert((post, step) == last.tick_finished(sink));
    } else {
        let last = pre.with_status(PlayStatus::Downloading);
        assert((post, step) == last.tick_finished(sink));
    }
}

/// A turn of the event loop either looks up the device and does nothing else, at every so many
/// turns, or follows the output at once.
pub proof fn lemma_turn_of_the_event_loop(
    pre: PlayerState,
    sink: SinkState,
    post: PlayerState,
    step: StepView,
)
    requires
        pre.turn_begun(sink, post, step),
        pre.tick_counter < u64::MAX,
        pre.runtime_config.default_output_check_every_ticks > 0,
    ensures
        (pre.tick_counter + 1) % (pre.runtime_config.default_output_check_every_ticks as int) == 0
            ==> post == pre && step == (StepView::Wait {
            command: CommandView::QueryDefaultOutput,
            phase: Phase::TickDevice,
        }),
        (pre.tick_counter + 1) % (pre.runtime_config.default_output_check_every_ticks as int) != 0
            ==> pre.ticked(sink, post, step),
{
}

/// A turn of the event loop that started a song or a download ends like any other: a position that
/// waits is sought in a loaded song, and otherwise the interface is shown what the output does.
pub proof fn lemma_turn_goes_on_after_a_start(
    pre: PlayerState,
    report: Report,
    post: PlayerState,
    step: StepView,
)
    requires
        pre.answered(Phase::Settling(After::Tick), report, post, step),
        pre.playlist.len() > 0,
    ensures
        pre.pending_seek_after_start is None ==> {
            &&& step is Frame
            &&& post == (PlayerState { tick_counter: post.tick_counter, ..pre })
            &&& report.sink.paused ==> step->frame.play_status == PlayStatus::Paused(
                report.sink.position,
            )
            &&& !report.sink.paused && !report.sink.empty ==> step->frame.play_status
                == PlayStatus::Playing(report.sink.position)
            &&& !report.sink.paused && report.sink.empty ==> step->frame.play_status
                == pre.last_status
        },
        pre.pending_seek_after_start matches Some(position) ==> (report.sink.paused
            || !report.sink.empty ==> {
            &&& post == (PlayerState { pending_seek_after_start: None, ..pre })
            &&& step == (StepView::Wait {
                command: CommandView::Seek { position },
                phase: Phase::TickSeek(position),
            })
        }),
{
}

/// The current song is the one at the current place of the list, and what is known of it is what
/// is known of that song; a song that was never heard of is missing.
pub proof fn lemma_what_is_known_of_the_current_song(pre: PlayerState, index: int)
    ensures
        pre.current_index is None ==> pre.current_song() is None && pre.current_source() is None
            && !pre.current_requires_download(),
        pre.current_index == Some(index) && 0 <= index < pre.playlist.len() ==> {
            &&& pre.current_song() == Some(pre.playlist[index])
            &&& pre.songs.contains_key(pre.playlist[index]) ==> pre.current_source() == Some(
                pre.songs[pre.playlist[index]],
            )
            &&& !pre.songs.contains_key(pre.playlist[index]) ==> pre.current_source() == Some(
                TrackSource::Missing,
            )
            &&& pre.current_requires_download() <==> !pre.songs.contains_key(pre.playlist[index])
                || pre.songs[pre.playlist[index]] == TrackSource::Missing
                || pre.songs[pre.playlist[index]] == TrackSource::Downloading
        },
        pre.current_index == Some(index) && index >= pre.playlist.len() ==> pre.current_song()
            is None,
{
}

} // verus!
