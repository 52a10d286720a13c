//! What holds of the player across its operations.
use vstd::prelude::*;

use crate::player::flow::lemma_patience_shrinks;
use crate::player::order::{
    distinct, following_mode, is_reordering, lemma_has_position, position_of, spliced, with_played,
};
use crate::player::persist::PersistView;
use crate::player::state::{
    history_bound, After, CommandView, Phase, PlayMode, PlayStatus, PlayerState, Position, Report,
    ShuffleState, SinkState, StepView, ThenPlay, TrackSource,
};

verus! {

/// What an operation that starts songs leaves alone: where the playlist came from, how it is
/// walked, the unshuffled order, the history, the settings, the output device, and which
/// playbacks there were.
pub open spec fn same_but_for_start(pre: PlayerState, post: PlayerState) -> bool {
    post == (PlayerState {
        playlist: post.playlist,
        current_index: post.current_index,
        songs: post.songs,
        error_count: post.error_count,
        last_status: post.last_status,
        pending_seek_after_start: post.pending_seek_after_start,
        tick_counter: post.tick_counter,
        ..pre
    })
}

/// Moving on to the next song keeps the player consistent.
pub proof fn lemma_next_keeps_consistency(pre: PlayerState, post: PlayerState)
    requires
        pre.consistent(),
        pre.moved_to_next(post),
    ensures
        post.consistent(),
        same_but_for_start(pre, post),
        post.songs == pre.songs,
        post.playlist.to_multiset() == pre.playlist.to_multiset(),
{
    pre.playlist.to_multiset_ensures();
    post.playlist.to_multiset_ensures();
}

/// Starting the current song keeps the player consistent, and leaves the rest alone.
pub proof fn lemma_start_keeps_consistency(
    pre: PlayerState,
    after: After,
    sink: SinkState,
    post: PlayerState,
    step: StepView,
)
    requires
        pre.started(after, sink, post, step),
    ensures
        same_but_for_start(pre, post),
        pre.consistent() ==> post.consistent(),
    decreases pre.patience(), 1nat,
{
    if pre.current_source() matches Some(TrackSource::Unplayable) {
        lemma_failure_keeps_consistency(pre, after, sink, post, step);
    }
}

/// Passing over the current song keeps the player consistent, and leaves the rest alone.
pub proof fn lemma_failure_keeps_consistency(
    pre: PlayerState,
    after: After,
    sink: SinkState,
    post: PlayerState,
    step: StepView,
)
    requires
        pre.failed(after, sink, post, step),
    ensures
        same_but_for_start(pre, post),
        pre.consistent() ==> post.consistent(),
    decreases pre.patience(), 0nat,
{
    let counted = pre.with_failure();
    if pre.has_patience() {
        let next = choose|next: PlayerState| #[trigger]
            counted.moved_to_next(next) && next.started(after, sink, post, step);
        lemma_patience_shrinks(pre, next);
        if pre.consistent() {
            lemma_next_keeps_consistency(counted, next);
        }
        lemma_start_keeps_consistency(next, after, sink, post, step);
    }
}

/// Entering a song into the history keeps it within its bound and free of repetitions.
pub proof fn lemma_history_stays_bounded(history: Seq<u64>, song_id: u64, capacity: usize)
    requires
        history.len() <= history_bound(capacity),
        forall|i: int| 0 < i < history.len() ==> #[trigger] history[i] != history[i - 1],
    ensures
        with_played(history, song_id, capacity).len() <= history_bound(capacity),
        with_played(history, song_id, capacity).len() > 0,
        with_played(history, song_id, capacity).last() == song_id,
        forall|i: int|
            0 < i < with_played(history, song_id, capacity).len() ==> #[trigger] with_played(
                history,
                song_id,
                capacity,
            )[i] != with_played(history, song_id, capacity)[i - 1],
{
    let longer = history.push(song_id);
    let played = with_played(history, song_id, capacity);
    if played != history {
        let dropped = longer.len() - played.len();
        assert forall|i: int| 0 < i < played.len() implies #[trigger] played[i] != played[i
            - 1] by {
            assert(played[i] == longer[i + dropped]);
            assert(played[i - 1] == longer[i + dropped - 1]);
            if i + dropped < history.len() {
                assert(history[i + dropped] != history[i + dropped - 1]);
            }
        }
    }
}

/// One turn of the event loop keeps the player consistent.
pub proof fn lemma_tick_keeps_consistency(
    pre: PlayerState,
    sink: SinkState,
    post: PlayerState,
    step: StepView,
)
    requires
        pre.consistent(),
        pre.ticked(sink, post, step),
    ensures
        post.consistent(),
{
    let handled = PlayerState { handled_finished_epoch: sink.finished_epoch, ..pre };
    if pre.playlist.len() == 0 {
    } else if pre.current_index is None {
        lemma_start_keeps_consistency(pre.with_index(Some(0)), After::Tick, sink, post, step);
    } else if sink.paused {
    } else if pre.last_status is Downloading {
        if pre.current_source() is Some && !pre.current_requires_download() {
            lemma_start_keeps_consistency(pre, After::Tick, sink, post, step);
        }
    } else if pre.has_finished(sink) {
        if pre.mode is LoopOne {
            lemma_start_keeps_consistency(handled, After::Tick, sink, post, step);
        } else {
            let next = choose|next: PlayerState| #[trigger]
                handled.moved_to_next(next) && next.started(After::Tick, sink, post, step);
            lemma_next_keeps_consistency(handled, next);
            lemma_start_keeps_consistency(next, After::Tick, sink, post, step);
        }
    }
}

/// Making a song the current one keeps the player consistent, and the song is the current one
/// then.
pub proof fn lemma_select_keeps_consistency(pre: PlayerState, song_id: u64)
    requires
        pre.consistent(),
    ensures
        pre.with_current(song_id).consistent(),
        pre.with_current(song_id).current_song() == Some(song_id),
{
    if pre.playlist.contains(song_id) {
        lemma_has_position(pre.playlist, song_id);
    } else {
        let index = pre.insert_index();
        lemma_splice_multiset(pre.playlist, index, seq![song_id]);
        if let Some(original) = pre.original_playlist {
            lemma_original_with(pre, original, pre.current_song(), seq![song_id]);
        }
    }
}

proof fn lemma_original_with(
    pre: PlayerState,
    original: Seq<u64>,
    after: Option<u64>,
    song_ids: Seq<u64>,
)
    requires
        pre.original_playlist == Some(original),
    ensures
        pre.original_with(after, song_ids) is Some,
        pre.original_with(after, song_ids)->0.to_multiset() == original.to_multiset().add(
            song_ids.to_multiset(),
        ),
{
    let index = match after {
        Some(song_id) => match position_of(original, song_id) {
            Some(index) => index + 1,
            None => original.len() as int,
        },
        None => original.len() as int,
    };
    if let Some(song_id) = after {
        if original.contains(song_id) {
            lemma_has_position(original, song_id);
        }
    }
    lemma_splice_multiset(original, index, song_ids);
}

/// Putting songs in at an index adds just these songs.
pub proof fn lemma_splice_multiset(list: Seq<u64>, index: int, song_ids: Seq<u64>)
    requires
        0 <= index <= list.len(),
    ensures
        spliced(list, index, song_ids).to_multiset() == list.to_multiset().add(
            song_ids.to_multiset(),
        ),
{
    let head = list.take(index);
    let tail = list.skip(index);
    assert(list =~= head + tail);
    vstd::seq_lib::lemma_multiset_commutative(head, tail);
    vstd::seq_lib::lemma_multiset_commutative(head + song_ids, tail);
    vstd::seq_lib::lemma_multiset_commutative(head, song_ids);
    assert(spliced(list, index, song_ids).to_multiset() =~= list.to_multiset().add(
        song_ids.to_multiset(),
    ));
}

/// Putting songs in keeps the player consistent, and a current song stays the current one.
pub proof fn lemma_insert_keeps_consistency(pre: PlayerState, song_ids: Seq<u64>)
    requires
        pre.consistent(),
    ensures
        pre.with_songs(song_ids).consistent(),
        pre.current_song() is Some ==> pre.with_songs(song_ids).current_song()
            == pre.current_song(),
{
    if song_ids.len() > 0 {
        let post = pre.with_songs(song_ids);
        let index = pre.insert_index();
        assert(pre.playlist.len() == 0 ==> spliced(pre.playlist, index, song_ids) =~= song_ids);
        lemma_splice_multiset(pre.playlist, index, song_ids);
        if let Some(original) = pre.original_playlist {
            let longer = PlayerState {
                playlist: post.playlist,
                current_index: post.current_index,
                ..pre
            };
            lemma_original_with(pre, original, longer.current_song(), song_ids);
        }
    }
}

/// Shuffling keeps the player consistent, the songs, and the current one.
pub proof fn lemma_shuffle_keeps_current_song(pre: PlayerState, post: PlayerState)
    requires
        pre.consistent(),
        pre.shuffled(post),
    ensures
        post.consistent(),
        post.current_song() == pre.current_song(),
        post.playlist.to_multiset() == pre.playlist.to_multiset(),
        pre.playlist.len() > 0 && pre.shuffle_state is Disabled ==> post.original_playlist == Some(
            pre.playlist,
        ),
{
    if pre.playlist.len() > 0 {
        let from = if pre.shuffle_state is Disabled {
            PlayerState {
                original_playlist: Some(pre.playlist),
                shuffle_state: ShuffleState::Enabled,
                ..pre
            }
        } else {
            pre
        };
        let order = choose|order: Seq<u64>|
            is_reordering(from.backup(), order) && post == #[trigger] from.with_order(order, true);
        pre.playlist.to_multiset_ensures();
        order.to_multiset_ensures();
        if let Some(song_id) = pre.current_song() {
            assert(pre.playlist.contains(song_id));
            assert(order.to_multiset().count(song_id) > 0);
            lemma_has_position(order, song_id);
        }
    }
}

/// Bringing back the order from before the shuffling keeps the player consistent, the songs,
/// and the current one.
pub proof fn lemma_restore_keeps_current_song(pre: PlayerState)
    requires
        pre.consistent(),
    ensures
        pre.order_restored().consistent(),
        pre.order_restored().current_song() == pre.current_song(),
        pre.order_restored().playlist.to_multiset() == pre.playlist.to_multiset(),
{
    if let Some(original) = pre.original_playlist {
        pre.playlist.to_multiset_ensures();
        original.to_multiset_ensures();
        if let Some(song_id) = pre.current_song() {
            assert(pre.playlist.contains(song_id));
            assert(original.to_multiset().count(song_id) > 0);
            lemma_has_position(original, song_id);
        }
    }
}

/// Switching shuffling on and off again gives back the order of the songs, and the current
/// song was the same all along.
pub proof fn lemma_shuffle_on_and_off(pre: PlayerState, on: PlayerState, off: PlayerState)
    requires
        pre.consistent(),
        pre.shuffle_state is Disabled,
        pre.shuffle_toggled(on),
        on.shuffle_toggled(off),
    ensures
        on.shuffle_state is Enabled,
        on.playlist.to_multiset() == pre.playlist.to_multiset(),
        on.current_song() == pre.current_song(),
        off.shuffle_state is Disabled,
        off.playlist == pre.playlist,
        off.current_song() == pre.current_song(),
        off.consistent(),
{
    let mid = choose|mid: PlayerState|
        #![trigger pre.shuffled(mid)]
        pre.shuffled(mid) && on == (PlayerState { shuffle_state: ShuffleState::Enabled, ..mid });
    lemma_shuffle_keeps_current_song(pre, mid);
    lemma_restore_keeps_current_song(on);
    if pre.playlist.len() == 0 {
        if let Some(original) = pre.original_playlist {
            pre.playlist.to_multiset_ensures();
            original.to_multiset_ensures();
            assert(original =~= pre.playlist);
        }
    }
}

/// Whether an operation can stand in this phase: the current song is started only where there
/// are songs.
pub open spec fn fits(player: PlayerState, phase: Phase) -> bool {
    let starts_current = match phase {
        Phase::NewPlaybackDevice(then) => then is Current,
        Phase::NewPlaybackRebind(then) => then is Current,
        Phase::ResumeDevice(then) => then is PlayOrStart,
        Phase::ResumeRebind { restore: _, position: _, then } => then is PlayOrStart,
        Phase::ResumeRestart(then) => then is PlayOrStart,
        _ => false,
    };
    starts_current ==> player.playlist.len() > 0
}

/// Whether a step leaves an operation in a phase that fits.
pub open spec fn step_fits(player: PlayerState, step: StepView) -> bool {
    step matches StepView::Wait { phase, .. } ==> fits(player, phase)
}

/// An operation that starts the current song goes on in a phase that fits.
pub proof fn lemma_start_fits(
    pre: PlayerState,
    after: After,
    sink: SinkState,
    post: PlayerState,
    step: StepView,
)
    requires
        pre.started(after, sink, post, step),
    ensures
        step_fits(post, step),
    decreases pre.patience(), 1nat,
{
    if pre.current_source() matches Some(TrackSource::Unplayable) {
        lemma_failure_fits(pre, after, sink, post, step);
    }
}

proof fn lemma_failure_fits(
    pre: PlayerState,
    after: After,
    sink: SinkState,
    post: PlayerState,
    step: StepView,
)
    requires
        pre.failed(after, sink, post, step),
    ensures
        step_fits(post, step),
    decreases pre.patience(), 0nat,
{
    let counted = pre.with_failure();
    if pre.has_patience() {
        let next = choose|next: PlayerState| #[trigger]
            counted.moved_to_next(next) && next.started(after, sink, post, step);
        lemma_patience_shrinks(pre, next);
        lemma_start_fits(next, after, sink, post, step);
    }
}

/// A turn of the event loop goes on in a phase that fits.
pub proof fn lemma_tick_fits(pre: PlayerState, sink: SinkState, post: PlayerState, step: StepView)
    requires
        pre.ticked(sink, post, step),
    ensures
        step_fits(post, step),
{
    let handled = PlayerState { handled_finished_epoch: sink.finished_epoch, ..pre };
    if pre.playlist.len() == 0 {
    } else if pre.current_index is None {
        lemma_start_fits(pre.with_index(Some(0)), After::Tick, sink, post, step);
    } else if sink.paused {
    } else if pre.last_status is Downloading {
        if pre.current_source() is Some && !pre.current_requires_download() {
            lemma_start_fits(pre, After::Tick, sink, post, step);
        }
    } else if pre.has_finished(sink) {
        if pre.mode is LoopOne {
            lemma_start_fits(handled, After::Tick, sink, post, step);
        } else {
            let next = choose|next: PlayerState| #[trigger]
                handled.moved_to_next(next) && next.started(After::Tick, sink, post, step);
            lemma_start_fits(next, After::Tick, sink, post, step);
        }
    }
}

proof fn lemma_new_playback_keeps_consistency(
    pre: PlayerState,
    then: ThenPlay,
    sink: SinkState,
    post: PlayerState,
    step: StepView,
)
    requires
        pre.consistent(),
        then is Current ==> pre.playlist.len() > 0,
        pre.new_playback_settled(then, sink, post, step),
    ensures
        post.consistent(),
        step_fits(post, step),
{
    match then {
        ThenPlay::Song(song_id) => {
            let selected = pre.with_pending_seek(None).with_current(song_id);
            lemma_select_keeps_consistency(pre.with_pending_seek(None), song_id);
            lemma_start_keeps_consistency(selected, After::Finish, sink, post, step);
            lemma_start_fits(selected, After::Finish, sink, post, step);
        },
        ThenPlay::Current(position) => {
            let from = pre.with_some_index();
            lemma_start_keeps_consistency(from, After::Restore(position), sink, post, step);
            lemma_start_fits(from, After::Restore(position), sink, post, step);
        },
    }
}

/// Whatever command was carried out, in whatever phase an operation can stand, the player stays
/// consistent and the operation goes on in a phase that fits.
pub proof fn lemma_report_keeps_consistency(
    pre: PlayerState,
    phase: Phase,
    report: Report,
    post: PlayerState,
    step: StepView,
)
    requires
        pre.consistent(),
        fits(pre, phase),
        pre.answered(phase, report, post, step),
    ensures
        post.consistent(),
        step_fits(post, step),
{
    let sink = report.sink;
    match phase {
        Phase::NewPlaybackDevice(then) => {
            if !pre.device_differs(report.device) {
                lemma_new_playback_keeps_consistency(pre, then, sink, post, step);
            }
        },
        Phase::NewPlaybackRebind(then) => {
            let settled = if report.ok {
                pre.rebound(report.device)
            } else {
                pre
            };
            lemma_new_playback_keeps_consistency(settled, then, sink, post, step);
        },
        Phase::Starting { song_id, after } => {
            if report.ok {
                lemma_history_stays_bounded(
                    pre.history,
                    song_id,
                    pre.runtime_config.history_capacity,
                );
            } else {
                let marked = pre.with_source(song_id, TrackSource::Unplayable);
                lemma_failure_keeps_consistency(marked, after, sink, post, step);
                lemma_failure_fits(marked, after, sink, post, step);
            }
        },
        Phase::TickDevice => {
            let pending = PlayerState { default_output_switch_pending: true, ..pre };
            if !pre.device_differs(report.device) {
                lemma_tick_keeps_consistency(pre, sink, post, step);
                lemma_tick_fits(pre, sink, post, step);
            } else if sink.empty || sink.paused {
                lemma_tick_keeps_consistency(pending, sink, post, step);
                lemma_tick_fits(pending, sink, post, step);
            }
        },
        Phase::TickPause => {
            let paused = pre.with_status(PlayStatus::Paused(sink.position));
            lemma_tick_keeps_consistency(paused, sink, post, step);
            lemma_tick_fits(paused, sink, post, step);
        },
        _ => {},
    }
}

/// Going back from the next song leads to the song one came from.
pub proof fn lemma_prev_undoes_next(pre: PlayerState, next: PlayerState)
    requires
        pre.consistent(),
        pre.current_index matches Some(index) && index + 1 < pre.playlist.len(),
        pre.moved_to_next(next),
    ensures
        next.playlist == pre.playlist,
        next.prev_index() == pre.current_index,
{
}

/// In a looped list that is not shuffled the songs follow one another in a circle, both ways.
pub proof fn lemma_looped_list_is_a_circle(pre: PlayerState, index: int)
    requires
        pre.consistent(),
        pre.current_index == Some(index),
        pre.mode is LoopAll,
        pre.shuffle_state is Disabled,
    ensures
        pre.moved_to_next(pre.with_index(Some((index + 1) % pre.playlist.len() as int))),
        pre.prev_index() == Some((index - 1) % pre.playlist.len() as int),
{
    let len = pre.playlist.len() as int;
    if index + 1 < len {
        vstd::arithmetic::div_mod::lemma_small_mod((index + 1) as nat, len as nat);
    } else {
        vstd::arithmetic::div_mod::lemma_mod_self_0(len);
    }
    if index > 0 {
        vstd::arithmetic::div_mod::lemma_small_mod((index - 1) as nat, len as nat);
    } else {
        assert((-1int) % len == len - 1) by (nonlinear_arith)
            requires
                len > 0,
        ;
    }
}

/// A list that is played in sequence and not shuffled ends after its last song.
pub proof fn lemma_sequence_ends(pre: PlayerState)
    requires
        pre.consistent(),
        pre.current_index == Some(pre.playlist.len() - 1),
        pre.mode is Sequence,
        pre.shuffle_state is Disabled,
    ensures
        pre.moved_to_next(pre.with_index(None)),
        pre.with_index(None).current_song() is None,
{
}

/// Changing the play mode goes from playing in sequence to looping the list, to looping one song,
/// and back. Doing it three times changes nothing, and no fewer times do that.
pub proof fn lemma_modes_take_turns(mode: PlayMode)
    ensures
        mode == PlayMode::Sequence ==> following_mode(mode) == PlayMode::LoopAll,
        mode == PlayMode::LoopAll ==> following_mode(mode) == PlayMode::LoopOne,
        mode == PlayMode::LoopOne ==> following_mode(mode) == PlayMode::Sequence,
        following_mode(following_mode(following_mode(mode))) == mode,
        following_mode(mode) != mode,
        following_mode(following_mode(mode)) != mode,
{
}

/// When every song that there is cannot be played, the player stops: it asks for nothing.
pub proof fn lemma_stops_when_nothing_plays(
    pre: PlayerState,
    sink: SinkState,
    post: PlayerState,
    step: StepView,
)
    requires
        pre.consistent(),
        forall|song_id: u64| #[trigger]
            pre.playlist.contains(song_id) ==> pre.source_of(song_id) is Unplayable,
        pre.started(After::Finish, sink, post, step),
    ensures
        post.last_status is Stopped,
        step == StepView::Done(post.status(sink)),
    decreases pre.patience(),
{
    if let Some(song_id) = pre.current_song() {
        assert(pre.playlist.contains(song_id));
        let counted = pre.with_failure();
        if pre.has_patience() {
            let next = choose|next: PlayerState| #[trigger]
                counted.moved_to_next(next) && next.started(After::Finish, sink, post, step);
            lemma_patience_shrinks(pre, next);
            lemma_next_keeps_consistency(counted, next);
            pre.playlist.to_multiset_ensures();
            next.playlist.to_multiset_ensures();
            assert forall|song_id: u64| #[trigger] next.playlist.contains(song_id) implies next.source_of(
                song_id,
            ) is Unplayable by {
                assert(next.playlist.to_multiset().count(song_id) > 0);
                assert(pre.playlist.contains(song_id));
                assert(next.source_of(song_id) == pre.source_of(song_id));
            }
            lemma_stops_when_nothing_plays(next, sink, post, step);
        }
    }
}

/// Fetching songs ahead never makes the player wait: once the current song plays, the download
/// that was begun changes nothing of what the player is doing.
pub proof fn lemma_fetching_ahead_does_not_wait(
    pre: PlayerState,
    song_id: u64,
    report: Report,
    playing: PlayerState,
    step: StepView,
    begun: Report,
    post: PlayerState,
    last: StepView,
)
    requires
        report.ok,
        pre.answered(Phase::Starting { song_id, after: After::Finish }, report, playing, step),
        step matches StepView::Wait { command: CommandView::Download { .. }, phase: _ },
        playing.answered(Phase::Settling(After::Finish), begun, post, last),
    ensures
        step->phase == Phase::Settling(After::Finish),
        playing.last_status == PlayStatus::Playing(report.sink.position),
        post == playing,
        last == StepView::Done(post.status(begun.sink)),
{
}

/// The end of a playback is taken notice of once: after the turn of the event loop that acted
/// on it, the same end is no news.
pub proof fn lemma_end_of_playback_counts_once(
    pre: PlayerState,
    sink: SinkState,
    post: PlayerState,
    step: StepView,
)
    requires
        pre.current_index is Some,
        pre.playlist.len() > 0,
        !sink.paused,
        pre.has_finished(sink),
        pre.ticked(sink, post, step),
    ensures
        !post.has_finished(sink),
{
    let handled = PlayerState { handled_finished_epoch: sink.finished_epoch, ..pre };
    if pre.mode is LoopOne {
        lemma_start_keeps_consistency(handled, After::Tick, sink, post, step);
    } else {
        let next = choose|next: PlayerState| #[trigger]
            handled.moved_to_next(next) && next.started(After::Tick, sink, post, step);
        lemma_start_keeps_consistency(next, After::Tick, sink, post, step);
    }
}

/// Looking for the end of the active playback tells it at most once. Once it was told, it is not
/// told again before another song is started, whatever the audio output says by then; and where
/// nothing was told, nothing changed.
pub proof fn lemma_handled_end_is_not_told_again(
    pre: PlayerState,
    sink: SinkState,
    later: PlayerState,
    later_sink: SinkState,
)
    requires
        later.active_playback_epoch == pre.active_playback_epoch,
        later.handled_finished_epoch == pre.end_taken(sink).handled_finished_epoch,
    ensures
        pre.has_finished(sink) <==> pre.last_status is Playing && sink.finished_epoch != 0
            && sink.finished_epoch == pre.active_playback_epoch && sink.finished_epoch
            != pre.handled_finished_epoch,
        pre.has_finished(sink) ==> {
            &&& pre.end_taken(sink).handled_finished_epoch == sink.finished_epoch
            &&& pre.end_taken(sink).end_is_handled()
            &&& !later.has_finished(later_sink)
        },
        !pre.end_taken(sink).has_finished(sink),
        !pre.has_finished(sink) ==> pre.end_taken(sink) == pre,
{
}

/// A turn of the event loop leaves an end that was taken notice of behind, as long as it starts
/// nothing.
proof fn lemma_tick_keeps_handled_end(
    pre: PlayerState,
    sink: SinkState,
    post: PlayerState,
    step: StepView,
)
    requires
        pre.end_is_handled(),
        pre.ticked(sink, post, step),
    ensures
        post.end_is_handled(),
        post.active_playback_epoch == pre.active_playback_epoch,
{
    if pre.playlist.len() > 0 && pre.current_index is None {
        lemma_start_keeps_consistency(pre.with_index(Some(0)), After::Tick, sink, post, step);
    } else if pre.playlist.len() > 0 && !sink.paused && pre.last_status is Downloading
        && pre.current_source() is Some && !pre.current_requires_download() {
        lemma_start_keeps_consistency(pre, After::Tick, sink, post, step);
    }
}

/// Whatever command was carried out, an end that was taken notice of is not told again unless a
/// song was started.
pub proof fn lemma_report_keeps_handled_end(
    pre: PlayerState,
    phase: Phase,
    report: Report,
    post: PlayerState,
    step: StepView,
    sink: SinkState,
)
    requires
        pre.end_is_handled(),
        pre.answered(phase, report, post, step),
        post.active_playback_epoch == pre.active_playback_epoch,
    ensures
        post.end_is_handled(),
        !post.has_finished(sink),
{
    let now = report.sink;
    match phase {
        Phase::NewPlaybackDevice(then) => {
            if !pre.device_differs(report.device) {
                lemma_new_playback_keeps_handled_end(pre, then, now, post, step);
            }
        },
        Phase::NewPlaybackRebind(then) => {
            let settled = if report.ok {
                pre.rebound(report.device)
            } else {
                pre
            };
            lemma_new_playback_keeps_handled_end(settled, then, now, post, step);
        },
        Phase::Starting { song_id, after } => {
            if !report.ok {
                let marked = pre.with_source(song_id, TrackSource::Unplayable);
                lemma_failure_keeps_consistency(marked, after, now, post, step);
            }
        },
        Phase::TickDevice => {
            let pending = PlayerState { default_output_switch_pending: true, ..pre };
            if !pre.device_differs(report.device) {
                lemma_tick_keeps_handled_end(pre, now, post, step);
            } else if now.empty || now.paused {
                lemma_tick_keeps_handled_end(pending, now, post, step);
            }
        },
        Phase::TickPause => {
            let paused = pre.with_status(PlayStatus::Paused(now.position));
            lemma_tick_keeps_handled_end(paused, now, post, step);
        },
        _ => {},
    }
}

proof fn lemma_new_playback_keeps_handled_end(
    pre: PlayerState,
    then: ThenPlay,
    sink: SinkState,
    post: PlayerState,
    step: StepView,
)
    requires
        pre.end_is_handled(),
        pre.new_playback_settled(then, sink, post, step),
    ensures
        post.end_is_handled(),
{
    match then {
        ThenPlay::Song(song_id) => {
            let selected = pre.with_pending_seek(None).with_current(song_id);
            lemma_start_keeps_consistency(selected, After::Finish, sink, post, step);
        },
        ThenPlay::Current(position) => {
            let from = pre.with_some_index();
            lemma_start_keeps_consistency(from, After::Restore(position), sink, post, step);
        },
    }
}

/// A song that was asked for in vain is not waited for: it is neither missing nor on its way.
pub proof fn lemma_failed_download_is_not_waited_for(
    pre: PlayerState,
    song_ids: Seq<u64>,
    post: PlayerState,
    song_id: u64,
)
    requires
        pre.all_sourced(song_ids, TrackSource::Unplayable, post),
        song_ids.contains(song_id),
    ensures
        post.source_of(song_id) is Unplayable,
        post.current_song() == Some(song_id) ==> !post.current_requires_download(),
{
}

/// The songs to fetch ahead are upcoming songs that are neither ready nor on their way, each
/// once, and no more than asked for.
pub proof fn lemma_predicted_songs(player: PlayerState)
    ensures
        player.predicted().len() <= player.runtime_config.predict_prefetch_count,
        player.predicted().no_duplicates(),
        forall|song_id: u64| #[trigger]
            player.predicted().contains(song_id) ==> player.upcoming().contains(song_id)
                && player.is_wanted(song_id),
{
    let wanted = player.upcoming().filter(|song_id: u64| player.is_wanted(song_id));
    lemma_distinct(wanted);
    let predicted = player.predicted();
    assert forall|song_id: u64| #[trigger]
        predicted.contains(song_id) implies player.upcoming().contains(song_id)
        && player.is_wanted(song_id) by {
        let i = choose|i: int| 0 <= i < predicted.len() && predicted[i] == song_id;
        assert(distinct(wanted)[i] == song_id);
        assert(distinct(wanted).contains(song_id));
        assert(wanted.contains(song_id));
        let is_wanted = |song_id: u64| player.is_wanted(song_id);
        player.upcoming().lemma_filter_contains_rev(is_wanted, song_id);
        let k = choose|k: int| 0 <= k < wanted.len() && wanted[k] == song_id;
        player.upcoming().lemma_filter_pred(is_wanted, k);
    }
}

/// Leaving out the later places of songs leaves each song once.
pub proof fn lemma_distinct(list: Seq<u64>)
    ensures
        distinct(list).no_duplicates(),
        forall|song_id: u64| #[trigger]
            distinct(list).contains(song_id) <==> list.contains(song_id),
    decreases list.len(),
{
    if list.len() > 0 {
        let rest = list.drop_last();
        lemma_distinct(rest);
        assert forall|song_id: u64| #[trigger]
            distinct(list).contains(song_id) <==> list.contains(song_id) by {
            if list.contains(song_id) {
                let i = choose|i: int| 0 <= i < list.len() && list[i] == song_id;
                if i < rest.len() {
                    assert(rest[i] == song_id);
                    assert(distinct(rest).contains(song_id));
                    let k = choose|k: int|
                        0 <= k < distinct(rest).len() && distinct(rest)[k] == song_id;
                    assert(distinct(list)[k] == song_id);
                } else if !distinct(rest).contains(song_id) {
                    assert(distinct(list).last() == song_id);
                }
            }
            if distinct(list).contains(song_id) {
                let k = choose|k: int|
                    0 <= k < distinct(list).len() && distinct(list)[k] == song_id;
                if k < distinct(rest).len() {
                    assert(distinct(rest)[k] == song_id);
                    assert(distinct(rest).contains(song_id));
                    let i = choose|i: int| 0 <= i < rest.len() && rest[i] == song_id;
                    assert(list[i] == song_id);
                }
            }
        }
    }
}

/// A state that was written to disk comes back as it was: the songs, their order, the current
/// one and the history. What was playing or paused is paused, at the same millisecond; nothing
/// plays or downloads by itself.
pub proof fn lemma_saved_state_comes_back(
    saved: PlayerState,
    sink: SinkState,
    started: PlayerState,
)
    requires
        saved.consistent(),
        saved.history.len() <= started.runtime_config.history_capacity,
        started.pending_seek_after_start is None,
    ensures
        ({
            let back = started.restored(saved.persisted(sink));
            &&& back.playlist == saved.playlist
            &&& back.current_index == saved.current_index
            &&& back.mode == saved.mode
            &&& back.shuffle_state == saved.shuffle_state
            &&& back.backup() == saved.backup()
            &&& back.history == saved.history
            &&& back.consistent()
            &&& back.last_status is Paused || back.last_status is Stopped
            &&& back.last_status is Paused <==> saved.current_index is Some && saved.status(
                sink,
            ).spec_is_loaded()
            &&& back.last_status matches PlayStatus::Paused(position)
                ==> back.pending_seek_after_start == Some(position) && match saved.status(sink) {
                PlayStatus::Playing(before) => before.nanos / 1_000_000 <= u64::MAX
                    ==> position.nanos == before.nanos - before.nanos % 1_000_000,
                PlayStatus::Paused(before) => before.nanos / 1_000_000 <= u64::MAX
                    ==> position.nanos == before.nanos - before.nanos % 1_000_000,
                _ => false,
            }
        }),
{
    lemma_restored_is_consistent(started, saved.persisted(sink));
}

/// Taking over a state from disk gives a consistent player, if the unshuffled order there holds
/// the songs of the playlist and the history there does not repeat itself.
pub proof fn lemma_restored_is_consistent(started: PlayerState, saved: PersistView)
    requires
        saved.original_playlist matches Some(original) ==> original.to_multiset()
            == saved.playlist.to_multiset(),
        saved.current_index matches Some(index) ==> index >= 0,
        forall|i: int|
            0 < i < saved.history.len() ==> #[trigger] saved.history[i] != saved.history[i - 1],
    ensures
        started.restored(saved).consistent(),
{
    let history = started.restored(saved).history;
    assert forall|i: int| 0 < i < history.len() implies #[trigger] history[i] != history[i - 1] by {
        assert(history[i] == saved.history[i] && history[i - 1] == saved.history[i - 1]);
    }
}

/// A position at which a song was paused before it was loaded is not lost while the song is
/// downloaded: it is sought when the song starts.
pub proof fn lemma_paused_position_is_sought(
    pre: PlayerState,
    sink: SinkState,
    position: Position,
    post: PlayerState,
    step: StepView,
    path: String,
    later: SinkState,
)
    requires
        pre.last_status == PlayStatus::Paused(position),
        sink.empty,
        pre.current_requires_download(),
        pre.with_pending_seek(pre.resume_position(sink)).started(After::Finish, sink, post, step),
    ensures
        post.last_status is Downloading,
        post.pending_seek_after_start == Some(position),
        ({
            let ready = post.with_source(post.current_song()->0, TrackSource::Ready(path));
            ready.launched(After::Tick, later).1 matches StepView::Wait {
                command: CommandView::Start { path: started, seek_to, .. },
                phase: _,
            } && started == path && seek_to == Some(position)
        }),
{
}

} // verus!
