//! What becomes of the list of songs, of what is known of them, and of the history.
use vstd::prelude::*;

use crate::player::PlaylistBase;
use crate::player::laws::{
    lemma_distinct, lemma_predicted_songs, lemma_restore_keeps_current_song,
    lemma_shuffle_keeps_current_song,
};
use crate::player::lists::lemma_distinct_is_monotonic;
use crate::player::order::{at_most, distinct, lemma_has_position, lemma_position_of, with_played};
use crate::player::state::{PlayStatus, PlayerState, ShuffleState, TrackSource};

verus! {

/// Of songs that are put in, the first ones are fetched at once, as many as the settings say.
pub proof fn lemma_first_inserted_songs_are_fetched(song_ids: Seq<u64>, count: int)
    requires
        0 <= count,
    ensures
        song_ids.len() <= count ==> at_most(song_ids, count) == song_ids,
        song_ids.len() > count ==> {
            &&& at_most(song_ids, count).len() == count
            &&& forall|i: int|
                0 <= i < count ==> at_most(song_ids, count)[i] == song_ids[i]
        },
{
}

/// What became known of songs is known of each of them, and of no other song.
pub proof fn lemma_what_became_known_of_songs(
    pre: PlayerState,
    song_ids: Seq<u64>,
    source: TrackSource,
    post: PlayerState,
    song_id: u64,
)
    requires
        pre.all_sourced(song_ids, source, post),
        source != TrackSource::Missing,
    ensures
        song_ids.contains(song_id) ==> post.songs.contains_key(song_id) && post.songs[song_id]
            == source,
        !song_ids.contains(song_id) && pre.songs.contains_key(song_id) && pre.songs[song_id]
            != TrackSource::Missing ==> post.songs.contains_key(song_id) && post.songs[song_id]
            == pre.songs[song_id],
        !song_ids.contains(song_id) && !pre.songs.contains_key(song_id)
            && post.songs.contains_key(song_id) ==> post.songs[song_id] == TrackSource::Missing,
        post == (PlayerState { songs: post.songs, ..pre }),
{
    assert(post.source_of(song_id) == (if song_ids.contains(song_id) {
        source
    } else {
        pre.source_of(song_id)
    }));
}

/// Songs that are put in follow right behind the current song, in the order given, before all
/// songs that followed it; the current song stays the current one. Without a current song they
/// come last, and the first song of the list is the current one then.
pub proof fn lemma_inserted_songs_come_next(pre: PlayerState, song_ids: Seq<u64>)
    requires
        pre.consistent(),
        song_ids.len() > 0,
    ensures
        pre.current_index matches Some(index) ==> {
            &&& pre.with_songs(song_ids).playlist == pre.playlist.take(index + 1) + song_ids
                + pre.playlist.skip(index + 1)
            &&& pre.with_songs(song_ids).current_index == Some(index)
            &&& forall|k: int|
                0 <= k < song_ids.len() ==> #[trigger] pre.with_songs(song_ids).playlist[index + 1
                    + k] == song_ids[k]
        },
        pre.current_index is None ==> {
            &&& pre.with_songs(song_ids).playlist == pre.playlist + song_ids
            &&& pre.with_songs(song_ids).current_index == Some(0int)
        },
        pre.with_songs(song_ids) == (PlayerState {
            playlist: pre.with_songs(song_ids).playlist,
            current_index: pre.with_songs(song_ids).current_index,
            original_playlist: pre.with_songs(song_ids).original_playlist,
            ..pre
        }),
{
    let post = pre.with_songs(song_ids);
    if pre.current_index is None {
        assert(post.playlist =~= pre.playlist + song_ids);
    }
}

/// The order that a shuffled list had before takes the songs in right behind the current song,
/// too, and without one at its end. A list that is not shuffled has no such order.
pub proof fn lemma_inserted_songs_come_next_in_the_old_order(
    pre: PlayerState,
    song_ids: Seq<u64>,
    original: Seq<u64>,
    place: int,
)
    requires
        pre.consistent(),
        song_ids.len() > 0,
        pre.original_playlist == Some(original),
        0 <= place < original.len(),
        pre.current_index matches Some(index) && original[place] == pre.playlist[index],
        forall|i: int| 0 <= i < place ==> original[i] != original[place],
    ensures
        pre.with_songs(song_ids).original_playlist == Some(
            original.take(place + 1) + song_ids + original.skip(place + 1),
        ),
{
    let song_id = original[place];
    lemma_position_of(original, song_id, place);
    let index = pre.current_index->0;
    assert(pre.with_songs(song_ids).playlist[index] == song_id);
}

/// Putting no songs in changes nothing, and a list that was never shuffled does not get an old
/// order by that.
pub proof fn lemma_inserting_nothing(pre: PlayerState, song_ids: Seq<u64>)
    ensures
        song_ids.len() == 0 ==> pre.with_songs(song_ids) == pre,
        pre.original_playlist is None ==> pre.with_songs(song_ids).original_playlist is None,
{
}

/// Nothing of the old list is left when it is replaced: no song is current, nothing is shuffled,
/// nothing plays, and no position waits. The play mode, the history and what is known of songs
/// stay.
pub proof fn lemma_replaced_list_starts_afresh(
    pre: PlayerState,
    songs: Seq<u64>,
    base: PlaylistBase,
)
    ensures
        pre.with_playlist(songs, base).playlist == songs,
        pre.with_playlist(songs, base).playlist_base == base,
        pre.with_playlist(songs, base).current_index is None,
        pre.with_playlist(songs, base).shuffle_state == ShuffleState::Disabled,
        pre.with_playlist(songs, base).original_playlist is None,
        pre.with_playlist(songs, base).error_count == 0,
        pre.with_playlist(songs, base).last_status == PlayStatus::Stopped,
        pre.with_playlist(songs, base).pending_seek_after_start is None,
        pre.with_playlist(songs, base).mode == pre.mode,
        pre.with_playlist(songs, base).songs == pre.songs,
        pre.with_playlist(songs, base).history == pre.history,
        pre.with_playlist(songs, base).active_playback_epoch == pre.active_playback_epoch,
        pre.with_playlist(songs, base).tick_counter == pre.tick_counter,
        pre.with_playlist(songs, base).last_default_output_device_name
            == pre.last_default_output_device_name,
        pre.with_playlist(songs, base).default_output_switch_pending
            == pre.default_output_switch_pending,
{
}

/// Switching shuffling on keeps the songs and the current one, and remembers the order from
/// before. Only the order and the place of the current song change.
pub proof fn lemma_shuffling_changes_only_the_order(pre: PlayerState, post: PlayerState)
    requires
        pre.consistent(),
        pre.shuffle_state == ShuffleState::Disabled,
        0 < pre.playlist.len(),
        pre.shuffle_toggled(post),
    ensures
        post == (PlayerState {
            playlist: post.playlist,
            current_index: post.current_index,
            shuffle_state: ShuffleState::Enabled,
            original_playlist: Some(pre.playlist),
            ..pre
        }),
        post.playlist.to_multiset() == pre.playlist.to_multiset(),
        post.current_index is Some <==> pre.current_index is Some,
        pre.current_index matches Some(index) ==> 0 <= post.current_index->0 < post.playlist.len()
            && post.playlist[post.current_index->0] == pre.playlist[index],
{
    lemma_shuffle_keeps_current_song(
        pre,
        choose|mid: PlayerState|
            #![trigger pre.shuffled(mid)]
            pre.shuffled(mid) && post == (PlayerState {
                shuffle_state: ShuffleState::Enabled,
                ..mid
            }),
    );
}

/// Switching shuffling off brings the remembered order back and keeps the current song. Only the
/// order and the place of the current song change.
pub proof fn lemma_unshuffling_brings_the_order_back(
    pre: PlayerState,
    post: PlayerState,
    original: Seq<u64>,
)
    requires
        pre.consistent(),
        pre.shuffle_state == ShuffleState::Enabled,
        pre.original_playlist == Some(original),
        pre.shuffle_toggled(post),
    ensures
        post == (PlayerState {
            playlist: original,
            current_index: post.current_index,
            shuffle_state: ShuffleState::Disabled,
            original_playlist: None,
            ..pre
        }),
        post.current_index is Some <==> pre.current_index is Some,
        pre.current_index matches Some(index) ==> 0 <= post.current_index->0 < original.len()
            && original[post.current_index->0] == pre.playlist[index],
{
    lemma_restore_keeps_current_song(pre);
}

/// Taking over an order takes over just that. A song that is to stay the current one is current
/// at its first place in the new order; otherwise the same place stays current.
pub proof fn lemma_order_is_taken_over(
    pre: PlayerState,
    order: Seq<u64>,
    index: int,
    keep_current_song: bool,
)
    requires
        pre.current_index == Some(index),
        0 <= index < pre.playlist.len(),
    ensures
        pre.with_order(order, keep_current_song) == (PlayerState {
            playlist: order,
            current_index: pre.with_order(order, keep_current_song).current_index,
            ..pre
        }),
        !keep_current_song ==> pre.with_order(order, keep_current_song).current_index == Some(
            index,
        ),
        keep_current_song && order.contains(pre.playlist[index]) ==> (pre.with_order(
            order,
            keep_current_song,
        ).current_index matches Some(place) && 0 <= place < order.len() && order[place]
            == pre.playlist[index] && forall|i: int| 0 <= i < place ==> order[i] != order[place]),
        keep_current_song && !order.contains(pre.playlist[index]) ==> pre.with_order(
            order,
            keep_current_song,
        ).current_index is None,
{
    if order.contains(pre.playlist[index]) {
        lemma_has_position(order, pre.playlist[index]);
    }
}

/// The songs to fetch ahead are the first ones behind the current song that are neither there nor
/// on their way, in their order and each once: as many as the settings say, or all there are.
/// Nothing is fetched ahead while as many of the songs behind the current one are ready.
pub proof fn lemma_first_songs_behind_are_fetched_ahead(
    pre: PlayerState,
    index: int,
    behind: int,
    k: int,
)
    requires
        pre.current_index == Some(index),
        0 <= index < behind < pre.playlist.len(),
        pre.songs.contains_key(pre.playlist[behind]) ==> !(pre.songs[pre.playlist[behind]] is Ready)
            && !(pre.songs[pre.playlist[behind]] is Downloading),
        pre.playlist.skip(index + 1).filter(
            |song_id: u64| pre.songs.contains_key(song_id) && pre.songs[song_id] is Ready,
        ).len() < pre.runtime_config.predict_prefetch_count,
    ensures
        pre.predicted().len() <= pre.runtime_config.predict_prefetch_count,
        pre.predicted().no_duplicates(),
        !pre.predicted().contains(pre.playlist[behind]) ==> pre.predicted().len()
            == pre.runtime_config.predict_prefetch_count,
        !pre.predicted().contains(pre.playlist[behind]) && 0 <= k < pre.predicted().len()
            ==> exists|j: int|
            index < j < behind && #[trigger] pre.playlist[j] == pre.predicted()[k],
{
    lemma_predicted_songs(pre);
    let upcoming = pre.upcoming();
    let is_ready = |song_id: u64| pre.is_ready(song_id);
    let is_wanted = |song_id: u64| pre.is_wanted(song_id);
    let ready = |song_id: u64| pre.songs.contains_key(song_id) && pre.songs[song_id] is Ready;
    assert(upcoming == pre.playlist.skip(index + 1));
    lemma_same_filter(upcoming, is_ready, ready);
    let lookahead = pre.runtime_config.predict_prefetch_count as int;
    let at = behind - index - 1;
    let song_id = pre.playlist[behind];
    assert(upcoming[at] == song_id);
    let before = upcoming.take(at);
    let rest = upcoming.skip(at);
    assert(upcoming =~= before + rest);
    Seq::filter_distributes_over_add(before, rest, is_wanted);
    let wanted = upcoming.filter(is_wanted);
    let earlier = before.filter(is_wanted);
    upcoming.lemma_filter_contains(is_wanted, at);
    assert(wanted.contains(song_id));
    lemma_distinct(wanted);
    lemma_distinct(earlier);
    assert(distinct(wanted).contains(song_id));
    if !pre.predicted().contains(song_id) {
        assert(distinct(wanted).len() > lookahead) by {
            if distinct(wanted).len() <= lookahead {
                assert(pre.predicted() == distinct(wanted));
            }
        }
        let predicted = pre.predicted();
        assert(predicted =~= distinct(wanted).take(lookahead));
        assert(wanted.take(earlier.len() as int) =~= earlier);
        lemma_distinct_is_monotonic(wanted, earlier.len() as int);
        // What comes before the song among the distinct ones is what was distinct before it.
        assert(distinct(earlier).len() >= lookahead) by {
            if distinct(earlier).len() < lookahead {
                assert(rest[0] == song_id);
                assert(rest =~= seq![song_id] + rest.skip(1));
                let one = seq![song_id];
                Seq::filter_distributes_over_add(one, rest.skip(1), is_wanted);
                reveal_with_fuel(Seq::filter, 2);
                assert(one.drop_last() =~= Seq::<u64>::empty());
                assert(one.filter(is_wanted) =~= one);
                let through = earlier.push(song_id);
                assert(wanted.take(earlier.len() as int + 1) =~= through);
                lemma_distinct_is_monotonic(
                    wanted,
                    earlier.len() as int + 1,
                );
                assert(through.drop_last() =~= earlier);
                assert(through.contains(song_id)) by {
                    assert(through.last() == song_id);
                }
                lemma_distinct(through);
                assert(distinct(through).contains(song_id));
                let k = choose|k: int|
                    0 <= k < distinct(through).len() && distinct(through)[k] == song_id;
                assert(distinct(through).len() <= distinct(earlier).len() + 1);
                assert(k < lookahead);
                assert(predicted[k] == distinct(through)[k]);
                assert(predicted.contains(song_id));
            }
        }
        if 0 <= k < predicted.len() {
            assert(predicted[k] == distinct(earlier)[k]);
            assert(distinct(earlier).contains(predicted[k]));
            assert(earlier.contains(predicted[k]));
            before.lemma_filter_contains_rev(is_wanted, predicted[k]);
            let i = choose|i: int| 0 <= i < before.len() && before[i] == predicted[k];
            assert(pre.playlist[index + 1 + i] == predicted[k]);
        }
    }
}

proof fn lemma_same_filter(
    list: Seq<u64>,
    one: spec_fn(u64) -> bool,
    other: spec_fn(u64) -> bool,
)
    requires
        forall|song_id: u64| #[trigger] one(song_id) == other(song_id),
    ensures
        list.filter(one) == list.filter(other),
    decreases list.len(),
{
    reveal(Seq::filter);
    if list.len() > 0 {
        lemma_same_filter(list.drop_last(), one, other);
    }
}

/// Nothing is fetched ahead without a current song, while enough songs behind it are ready, or
/// if the settings say so.
pub proof fn lemma_nothing_is_fetched_ahead_needlessly(pre: PlayerState, index: int)
    ensures
        pre.current_index is None ==> pre.predicted().len() == 0,
        pre.runtime_config.predict_prefetch_count == 0 ==> pre.predicted().len() == 0,
        pre.current_index == Some(index) && 0 <= index < pre.playlist.len()
            && pre.playlist.skip(index + 1).filter(
            |song_id: u64| pre.songs.contains_key(song_id) && pre.songs[song_id] is Ready,
        ).len() >= pre.runtime_config.predict_prefetch_count ==> pre.predicted().len() == 0,
{
    lemma_predicted_songs(pre);
    if pre.current_index is None {
        reveal(Seq::filter);
    }
    let is_ready = |song_id: u64| pre.is_ready(song_id);
    let ready = |song_id: u64| pre.songs.contains_key(song_id) && pre.songs[song_id] is Ready;
    lemma_same_filter(pre.upcoming(), is_ready, ready);
}

/// A song that was played is the last one of the history, once if it was that already. The songs
/// before it stay in their order, as many of the last ones as fit.
pub proof fn lemma_history_keeps_the_last_songs(history: Seq<u64>, song_id: u64, capacity: usize)
    requires
        history.len() <= capacity,
    ensures
        history.len() > 0 && history.last() == song_id ==> with_played(
            history,
            song_id,
            capacity,
        ) == history,
        (history.len() == 0 || history.last() != song_id) && history.len() < capacity
            ==> with_played(history, song_id, capacity) == history.push(
            song_id,
        ),
        (history.len() == 0 || history.last() != song_id) && history.len() == capacity && 0
            < capacity ==> with_played(history, song_id, capacity)
            == history.drop_first().push(song_id),
{
    if 0 < history.len() && history.len() == capacity && history.last() != song_id {
        assert(history.push(song_id).skip(1) =~= history.drop_first().push(song_id));
    }
}

} // verus!
