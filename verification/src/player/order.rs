//! How the playlist is walked and changed: the next and the previous song, shuffling,
//! insertion, and which songs to fetch ahead.
use vstd::prelude::*;

use crate::player::state::{
    history_bound, PlayMode, PlayStatus, PlayerState, PlaylistBase, ShuffleState,
};

verus! {

/// Whether `index` is the first place of a song in a list.
pub open spec fn is_first_position(list: Seq<u64>, song_id: u64, index: int) -> bool {
    &&& 0 <= index < list.len()
    &&& list[index] == song_id
    &&& forall|i: int| 0 <= i < index ==> list[i] != song_id
}

/// The first place of a song in a list.
pub open spec fn position_of(list: Seq<u64>, song_id: u64) -> Option<int> {
    if list.contains(song_id) {
        Some(choose|index: int| is_first_position(list, song_id, index))
    } else {
        None
    }
}

/// A list with songs put in at an index.
pub open spec fn spliced(list: Seq<u64>, index: int, song_ids: Seq<u64>) -> Seq<u64> {
    list.take(index) + song_ids + list.skip(index)
}

/// Whether `order` holds the songs of `base` in some order; a list of less than two songs has
/// no other order.
pub open spec fn is_reordering(base: Seq<u64>, order: Seq<u64>) -> bool {
    &&& order.to_multiset() == base.to_multiset()
    &&& base.len() < 2 ==> order == base
}

/// The songs of a list, each at its first place only.
pub open spec fn distinct(list: Seq<u64>) -> Seq<u64>
    decreases list.len(),
{
    if list.len() == 0 {
        Seq::empty()
    } else {
        let rest = distinct(list.drop_last());
        if rest.contains(list.last()) {
            rest
        } else {
            rest.push(list.last())
        }
    }
}

/// The first `n` songs of a list, or all of them if there are fewer.
pub open spec fn at_most(list: Seq<u64>, n: int) -> Seq<u64> {
    if list.len() <= n {
        list
    } else {
        list.take(n)
    }
}

/// Whether `list` holds exactly the songs of `members`, in ascending order and each once.
pub open spec fn is_ascending_list(list: Seq<u64>, members: Seq<u64>) -> bool {
    &&& forall|i: int, j: int| 0 <= i < j < list.len() ==> list[i] < list[j]
    &&& forall|song_id: u64| #[trigger] list.contains(song_id) <==> members.contains(song_id)
}

/// The songs of a list in ascending order, each once.
pub open spec fn ascending(members: Seq<u64>) -> Seq<u64> {
    choose|list: Seq<u64>| is_ascending_list(list, members)
}

/// The history after a song was played: the song that is last already is not repeated, and
/// the oldest songs leave when there are too many.
pub open spec fn with_played(history: Seq<u64>, song_id: u64, capacity: usize) -> Seq<u64> {
    if history.len() > 0 && history.last() == song_id {
        history
    } else {
        let longer = history.push(song_id);
        if longer.len() <= history_bound(capacity) {
            longer
        } else {
            longer.skip(longer.len() - history_bound(capacity))
        }
    }
}

/// The play mode that follows another one when modes are changed in turn.
pub open spec fn following_mode(mode: PlayMode) -> PlayMode {
    match mode {
        PlayMode::Sequence => PlayMode::LoopAll,
        PlayMode::LoopAll => PlayMode::LoopOne,
        PlayMode::LoopOne => PlayMode::Sequence,
    }
}

impl PlayerState {
    /// The order that shuffling starts from.
    pub open spec fn backup(self) -> Seq<u64> {
        match self.original_playlist {
            Some(original) => original,
            None => self.playlist,
        }
    }

    /// The player with its songs in another order. The current song stays the current one
    /// where that is asked for.
    pub open spec fn with_order(self, order: Seq<u64>, keep_current_song: bool) -> PlayerState {
        PlayerState {
            playlist: order,
            current_index: match self.current_song() {
                Some(song_id) if keep_current_song => position_of(order, song_id),
                _ => self.current_index,
            },
            ..self
        }
    }

    /// Whether `post` is this player with its songs in some order, taken from the backup.
    pub open spec fn reshuffled(self, keep_current_song: bool, post: PlayerState) -> bool {
        if self.playlist.len() == 0 {
            post == self
        } else {
            exists|order: Seq<u64>|
                is_reordering(self.backup(), order) && post == #[trigger] self.with_order(
                    order,
                    keep_current_song,
                )
        }
    }

    /// Whether `post` is this player after its playlist was shuffled. The order from before is
    /// kept, unless the playlist was shuffled already.
    pub open spec fn shuffled(self, post: PlayerState) -> bool {
        if self.playlist.len() == 0 {
            post == self
        } else if self.shuffle_state is Disabled {
            PlayerState {
                original_playlist: Some(self.playlist),
                shuffle_state: ShuffleState::Enabled,
                ..self
            }.reshuffled(true, post)
        } else {
            self.reshuffled(true, post)
        }
    }

    /// The player after the order from before the shuffling came back, with the same current
    /// song.
    pub open spec fn order_restored(self) -> PlayerState {
        if self.shuffle_state is Disabled {
            self
        } else {
            PlayerState {
                playlist: self.backup(),
                current_index: match self.original_playlist {
                    Some(original) => match self.current_song() {
                        Some(song_id) => position_of(original, song_id),
                        None => None,
                    },
                    None => self.current_index,
                },
                original_playlist: None,
                shuffle_state: ShuffleState::Disabled,
                ..self
            }
        }
    }

    /// Whether `post` is this player after shuffling was switched on or off.
    pub open spec fn shuffle_toggled(self, post: PlayerState) -> bool {
        match self.shuffle_state {
            ShuffleState::Disabled => exists|mid: PlayerState|
                #![trigger self.shuffled(mid)]
                self.shuffled(mid) && post == (PlayerState {
                    shuffle_state: ShuffleState::Enabled,
                    ..mid
                }),
            ShuffleState::Enabled => post == (PlayerState {
                shuffle_state: ShuffleState::Disabled,
                ..self.order_restored()
            }),
        }
    }

    /// Whether the walk has come to the end of a shuffled playlist, which is shuffled anew then.
    pub open spec fn wraps_shuffled(self) -> bool {
        &&& self.current_index matches Some(index) && index + 1 >= self.playlist.len()
        &&& self.shuffle_state is Enabled
        &&& self.playlist.len() > 0
    }

    /// The index of the next song where the playlist is not shuffled anew: the one after the
    /// current song; at the end, the first one in a list that is looped and none otherwise.
    /// Without a current song it is the first one.
    pub open spec fn next_in_order(self) -> Option<int> {
        match self.current_index {
            Some(index) => if index + 1 < self.playlist.len() {
                Some(index + 1)
            } else if self.mode is LoopAll {
                Some(0)
            } else {
                None
            },
            None => if self.playlist.len() > 0 {
                Some(0)
            } else {
                None
            },
        }
    }

    /// Whether `post` is this player after it moved on to the next song.
    pub open spec fn moved_to_next(self, post: PlayerState) -> bool {
        if self.wraps_shuffled() {
            exists|order: Seq<u64>| #[trigger]
                is_reordering(self.backup(), order) && post == (PlayerState {
                    playlist: order,
                    current_index: Some(0),
                    ..self
                })
        } else {
            post == (PlayerState { current_index: self.next_in_order(), ..self })
        }
    }

    /// The index of the previous song. The first song is its own, unless the list is looped.
    pub open spec fn prev_index(self) -> Option<int> {
        if self.playlist.len() == 0 {
            None
        } else {
            match self.current_index {
                Some(index) => if index > 0 {
                    Some(index - 1)
                } else if self.mode is LoopAll {
                    Some(self.playlist.len() - 1)
                } else {
                    Some(0)
                },
                None => Some(0),
            }
        }
    }

    /// Where songs are put in: after the current song, or at the end without one.
    pub open spec fn insert_index(self) -> int {
        match self.current_index {
            Some(index) if index + 1 <= self.playlist.len() => index + 1,
            _ => self.playlist.len() as int,
        }
    }

    /// The unshuffled order with songs put in after a song, or at the end.
    pub open spec fn original_with(self, after: Option<u64>, song_ids: Seq<u64>) -> Option<Seq<u64>> {
        match self.original_playlist {
            Some(original) => {
                let index = match after {
                    Some(song_id) => match position_of(original, song_id) {
                        Some(index) => index + 1,
                        None => original.len() as int,
                    },
                    None => original.len() as int,
                };
                Some(spliced(original, index, song_ids))
            },
            None => None,
        }
    }

    /// The player after songs were put in after the current one.
    pub open spec fn with_songs(self, song_ids: Seq<u64>) -> PlayerState {
        if song_ids.len() == 0 {
            self
        } else {
            let longer = PlayerState {
                playlist: if self.playlist.len() == 0 {
                    song_ids
                } else {
                    spliced(self.playlist, self.insert_index(), song_ids)
                },
                current_index: match self.current_index {
                    Some(index) if self.playlist.len() > 0 => Some(index),
                    _ => Some(0),
                },
                ..self
            };
            PlayerState {
                original_playlist: self.original_with(longer.current_song(), song_ids),
                ..longer
            }
        }
    }

    /// The player after a song became the current one. A song that the playlist lacks is put
    /// in after the current one.
    pub open spec fn with_current(self, song_id: u64) -> PlayerState {
        match position_of(self.playlist, song_id) {
            Some(index) => PlayerState { current_index: Some(index), ..self },
            None => PlayerState {
                playlist: spliced(self.playlist, self.insert_index(), seq![song_id]),
                current_index: Some(self.insert_index()),
                original_playlist: self.original_with(self.current_song(), seq![song_id]),
                ..self
            },
        }
    }

    /// The player after its playlist was replaced: nothing of the old list is left.
    pub open spec fn with_playlist(self, songs: Seq<u64>, base: PlaylistBase) -> PlayerState {
        PlayerState {
            playlist: songs,
            playlist_base: base,
            current_index: None,
            shuffle_state: ShuffleState::Disabled,
            original_playlist: None,
            error_count: 0,
            last_status: PlayStatus::Stopped,
            pending_seek_after_start: None,
            ..self
        }
    }

    /// The songs that follow the current one.
    pub open spec fn upcoming(self) -> Seq<u64> {
        match self.current_index {
            Some(index) if 0 <= index < self.playlist.len() => self.playlist.skip(index + 1),
            _ => Seq::empty(),
        }
    }

    pub open spec fn is_ready(self, song_id: u64) -> bool {
        self.source_of(song_id) is Ready
    }

    /// Whether a song would have to be fetched: it is neither ready nor on its way.
    pub open spec fn is_wanted(self, song_id: u64) -> bool {
        !(self.source_of(song_id) is Ready) && !(self.source_of(song_id) is Downloading)
    }

    /// The songs to fetch ahead: the first of the upcoming songs that are wanted, each once,
    /// unless enough of the upcoming songs are ready.
    pub open spec fn predicted(self) -> Seq<u64> {
        let lookahead = self.runtime_config.predict_prefetch_count as int;
        let ready = self.upcoming().filter(|song_id: u64| self.is_ready(song_id));
        if ready.len() >= lookahead {
            Seq::empty()
        } else {
            at_most(
                distinct(self.upcoming().filter(|song_id: u64| self.is_wanted(song_id))),
                lookahead,
            )
        }
    }
}

/// A song has at most one first place.
pub proof fn lemma_position_of(list: Seq<u64>, song_id: u64, index: int)
    requires
        is_first_position(list, song_id, index),
    ensures
        position_of(list, song_id) == Some(index),
{
    assert(list.contains(song_id));
    let chosen = choose|i: int| is_first_position(list, song_id, i);
    assert(is_first_position(list, song_id, chosen));
    if chosen < index {
        assert(list[chosen] != song_id);
    }
    if index < chosen {
        assert(list[index] != song_id);
    }
}

/// A song that is in a list has a first place there.
pub proof fn lemma_has_position(list: Seq<u64>, song_id: u64)
    requires
        list.contains(song_id),
    ensures
        position_of(list, song_id) is Some,
        is_first_position(list, song_id, position_of(list, song_id)->0),
{
    let index = lemma_find_first(list, song_id, 0);
    lemma_position_of(list, song_id, index);
}

proof fn lemma_find_first(list: Seq<u64>, song_id: u64, from: int) -> (index: int)
    requires
        0 <= from <= list.len(),
        forall|i: int| 0 <= i < from ==> list[i] != song_id,
        list.contains(song_id),
    ensures
        is_first_position(list, song_id, index),
    decreases list.len() - from,
{
    if from < list.len() && list[from] == song_id {
        from
    } else {
        let place = choose|i: int| 0 <= i < list.len() && list[i] == song_id;
        assert(from <= place);
        lemma_find_first(list, song_id, from + 1)
    }
}

/// The ascending list of songs holds just these songs, each once and the smallest first.
pub proof fn lemma_ascending(members: Seq<u64>)
    ensures
        is_ascending_list(ascending(members), members),
{
    let list = lemma_some_ascending_list(members);
    assert(is_ascending_list(list, members));
}

proof fn lemma_some_ascending_list(members: Seq<u64>) -> (list: Seq<u64>)
    ensures
        is_ascending_list(list, members),
    decreases members.len(),
{
    if members.len() == 0 {
        assert(is_ascending_list(Seq::<u64>::empty(), members));
        Seq::empty()
    } else {
        let fewer = members.drop_last();
        let last = members.last();
        let shorter = lemma_some_ascending_list(fewer);
        assert forall|song_id: u64| #[trigger] members.contains(song_id) <==> fewer.contains(
            song_id,
        ) || song_id == last by {
            if fewer.contains(song_id) {
                let i = choose|i: int| 0 <= i < fewer.len() && fewer[i] == song_id;
                assert(members[i] == song_id);
            }
            if members.contains(song_id) && song_id != last {
                let i = choose|i: int| 0 <= i < members.len() && members[i] == song_id;
                assert(fewer[i] == song_id);
            }
            assert(members[members.len() - 1] == last);
        }
        if shorter.contains(last) {
            assert(is_ascending_list(shorter, members)) by {
                assert forall|song_id: u64| #[trigger] shorter.contains(song_id)
                    <==> members.contains(song_id) by {
                    assert(shorter.contains(song_id) <==> fewer.contains(song_id));
                }
            }
            shorter
        } else {
            let place = lemma_place_in_ascending(shorter, last, 0);
            let list = shorter.take(place) + seq![last] + shorter.skip(place);
            assert forall|song_id: u64| #[trigger] list.contains(song_id) <==> members.contains(
                song_id,
            ) by {
                if list.contains(song_id) {
                    let i = choose|i: int| 0 <= i < list.len() && list[i] == song_id;
                    if i < place {
                        assert(shorter[i] == song_id);
                        assert(shorter.contains(song_id));
                    } else if i > place {
                        assert(shorter[i - 1] == song_id);
                        assert(shorter.contains(song_id));
                    }
                    assert(members.contains(song_id) <==> fewer.contains(song_id) || song_id
                        == last);
                }
                if members.contains(song_id) {
                    if song_id == last {
                        assert(list[place] == song_id);
                    } else {
                        assert(shorter.contains(song_id));
                        let i = choose|i: int| 0 <= i < shorter.len() && shorter[i] == song_id;
                        assert(list[if i < place {
                            i
                        } else {
                            i + 1
                        }] == song_id);
                    }
                }
            }
            list
        }
    }
}

proof fn lemma_place_in_ascending(list: Seq<u64>, song_id: u64, from: int) -> (place: int)
    requires
        0 <= from <= list.len(),
        forall|i: int, j: int| 0 <= i < j < list.len() ==> list[i] < list[j],
        !list.contains(song_id),
        forall|i: int| 0 <= i < from ==> list[i] < song_id,
    ensures
        0 <= place <= list.len(),
        forall|i: int| 0 <= i < place ==> list[i] < song_id,
        forall|i: int| place <= i < list.len() ==> list[i] > song_id,
    decreases list.len() - from,
{
    if from == list.len() || list[from] > song_id {
        from
    } else {
        assert(list[from] != song_id);
        lemma_place_in_ascending(list, song_id, from + 1)
    }
}

/// There is only one ascending list of given songs.
pub proof fn lemma_ascending_is_unique(a: Seq<u64>, b: Seq<u64>, members: Seq<u64>)
    requires
        is_ascending_list(a, members),
        is_ascending_list(b, members),
    ensures
        a == b,
    decreases a.len(),
{
    if a.len() == 0 {
        if b.len() > 0 {
            assert(b.contains(b[0]));
            assert(a.contains(b[0]));
        }
        assert(a =~= b);
    } else {
        assert(a.contains(a[0]));
        assert(b.contains(a[0]));
        let at_b = choose|i: int| 0 <= i < b.len() && b[i] == a[0];
        assert(b.contains(b[0]));
        assert(a.contains(b[0]));
        let at_a = choose|i: int| 0 <= i < a.len() && a[i] == b[0];
        assert(a[0] == b[0]);
        let rest_a = a.drop_first();
        let rest_b = b.drop_first();
        assert forall|song_id: u64| #[trigger] rest_a.contains(song_id) <==> rest_b.contains(
            song_id,
        ) by {
            if rest_a.contains(song_id) {
                let i = choose|i: int| 0 <= i < rest_a.len() && rest_a[i] == song_id;
                assert(a[i + 1] == song_id);
                assert(a.contains(song_id));
                assert(b.contains(song_id));
                let j = choose|j: int| 0 <= j < b.len() && b[j] == song_id;
                assert(j != 0);
                assert(rest_b[j - 1] == song_id);
            }
            if rest_b.contains(song_id) {
                let i = choose|i: int| 0 <= i < rest_b.len() && rest_b[i] == song_id;
                assert(b[i + 1] == song_id);
                assert(b.contains(song_id));
                assert(a.contains(song_id));
                let j = choose|j: int| 0 <= j < a.len() && a[j] == song_id;
                assert(j != 0);
                assert(rest_a[j - 1] == song_id);
            }
        }
        lemma_ascending_is_unique(rest_a, rest_b, rest_b);
        assert(a =~= seq![a[0]] + rest_a);
        assert(b =~= seq![b[0]] + rest_b);
    }
}

} // verus!
