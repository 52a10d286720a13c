//! Walking and changing the playlist.
use vstd::prelude::*;

use crate::player::laws::{
    lemma_insert_keeps_consistency, lemma_restore_keeps_current_song,
    lemma_shuffle_keeps_current_song,
};
use crate::player::lists::{
    copy_songs, find_song, first_songs, has_song, lemma_distinct_is_monotonic, shuffle_songs,
    splice_songs,
};
use crate::player::order::{at_most, distinct, following_mode, is_reordering, with_played};
use crate::player::state::{has_audio, history_bound, PlayerState};
use crate::player::{
    Command, PlayMode, PlayStatus, PlayerCore, PlaylistBase, ShuffleState, SinkState, TrackSource,
};

verus! {

impl PlayerCore {
    /// The identifier of the current song.
    pub fn get_current_id(&self) -> (song_id: Option<u64>)
        ensures
            song_id == self@.current_song(),
    {
        match self.current_index {
            Some(index) if index < self.playlist.len() => Some(self.playlist[index]),
            _ => None,
        }
    }

    /// Where the playlist came from.
    pub fn get_playlist_base(&self) -> (base: &PlaylistBase)
        ensures
            *base == self@.playlist_base,
    {
        &self.playlist_base
    }

    /// The songs of the playlist, in the order in which they are walked.
    pub fn get_playlist(&self) -> (song_ids: &Vec<u64>)
        ensures
            song_ids@ == self@.playlist,
    {
        &self.playlist
    }

    /// The play mode.
    pub fn play_mode(&self) -> (mode: PlayMode)
        ensures
            mode == self@.mode,
    {
        self.mode
    }

    /// Sets the play mode.
    pub fn set_play_mode(&mut self, mode: PlayMode)
        ensures
            final(self)@ == (PlayerState { mode, ..old(self)@ }),
            old(self)@.consistent() ==> final(self)@.consistent(),
    {
        self.mode = mode;
    }

    /// Goes from playing in sequence to looping the list, to looping one song, and back.
    pub fn toggle_play_mode(&mut self)
        ensures
            final(self)@ == (PlayerState {
                mode: following_mode(old(self)@.mode),
                ..old(self)@
            }),
            old(self)@.consistent() ==> final(self)@.consistent(),
    {
        let mode = match self.mode {
            PlayMode::Sequence => PlayMode::LoopAll,
            PlayMode::LoopAll => PlayMode::LoopOne,
            PlayMode::LoopOne => PlayMode::Sequence,
        };
        self.set_play_mode(mode);
    }

    /// Takes over another order of the songs. The current song stays the current one where
    /// that is asked for.
    pub fn adopt_order(&mut self, order: Vec<u64>, keep_current_song: bool)
        ensures
            final(self)@ == old(self)@.with_order(order@, keep_current_song),
    {
        let current_song = self.get_current_id();
        if keep_current_song {
            if let Some(song_id) = current_song {
                self.current_index = find_song(&order, song_id);
            }
        }
        self.playlist = order;
    }

    /// Shuffles the songs anew, starting from their order before they were shuffled.
    fn reshuffle_from_backup(&mut self, keep_current_song: bool)
        ensures
            old(self)@.reshuffled(keep_current_song, final(self)@),
            old(self)@.playlist.len() > 0 ==> exists|order: Seq<u64>|
                #![trigger is_reordering(old(self)@.backup(), order)]
                is_reordering(old(self)@.backup(), order) && final(self)@ == old(self)@.with_order(
                    order,
                    keep_current_song,
                ),
    {
        if self.playlist.len() == 0 {
            return;
        }
        let mut order = match &self.original_playlist {
            Some(original) => copy_songs(original),
            None => copy_songs(&self.playlist),
        };
        if order.len() >= 2 {
            shuffle_songs(&mut order);
        }
        assert(is_reordering(old(self)@.backup(), order@));
        self.adopt_order(order, keep_current_song);
    }

    /// Shuffles the playlist; the current song stays the current one.
    pub fn shuffle_playlist(&mut self)
        ensures
            old(self)@.shuffled(final(self)@),
            old(self)@.consistent() ==> final(self)@.consistent(),
    {
        if self.playlist.len() == 0 {
            return;
        }
        if self.shuffle_state == ShuffleState::Disabled {
            self.original_playlist = Some(copy_songs(&self.playlist));
            self.shuffle_state = ShuffleState::Enabled;
        }
        self.reshuffle_from_backup(true);
        proof {
            if old(self)@.consistent() {
                lemma_shuffle_keeps_current_song(old(self)@, self@);
            }
        }
    }

    /// Brings back the order from before the playlist was shuffled; the current song stays the
    /// current one.
    pub fn restore_playlist_order(&mut self)
        ensures
            final(self)@ == old(self)@.order_restored(),
            old(self)@.consistent() ==> final(self)@.consistent(),
    {
        if self.shuffle_state == ShuffleState::Disabled {
            return;
        }
        let current_song = self.get_current_id();
        if let Some(original) = self.original_playlist.take() {
            self.current_index = match current_song {
                Some(song_id) => find_song(&original, song_id),
                None => None,
            };
            self.playlist = original;
        }
        self.shuffle_state = ShuffleState::Disabled;
        proof {
            if old(self)@.consistent() {
                lemma_restore_keeps_current_song(old(self)@);
            }
        }
    }

    /// Switches shuffling on or off.
    pub fn toggle_shuffle(&mut self)
        ensures
            old(self)@.shuffle_toggled(final(self)@),
            old(self)@.consistent() ==> final(self)@.consistent(),
    {
        match self.shuffle_state {
            ShuffleState::Disabled => {
                self.shuffle_playlist();
                let ghost shuffled = self@;
                self.shuffle_state = ShuffleState::Enabled;
                assert(old(self)@.shuffled(shuffled));
            },
            ShuffleState::Enabled => {
                self.restore_playlist_order();
                self.shuffle_state = ShuffleState::Disabled;
            },
        }
    }

    /// Moves on to the next song. A shuffled playlist is shuffled anew at its end.
    pub(crate) fn move_to_next(&mut self)
        ensures
            old(self)@.moved_to_next(final(self)@),
    {
        let len = self.playlist.len();
        match self.current_index {
            Some(index) => {
                if index < len && index + 1 < len {
                    self.current_index = Some(index + 1);
                } else if self.shuffle_state == ShuffleState::Enabled && len > 0 {
                    self.reshuffle_from_backup(false);
                    self.current_index = Some(0);
                } else if self.mode == PlayMode::LoopAll {
                    self.current_index = Some(0);
                } else {
                    self.current_index = None;
                }
            },
            None => {
                if len > 0 {
                    self.current_index = Some(0);
                }
            },
        }
    }

    /// Moves back to the previous song.
    pub(crate) fn move_to_prev(&mut self)
        ensures
            final(self)@ == old(self)@.with_index(old(self)@.prev_index()),
    {
        let len = self.playlist.len();
        self.current_index = if len == 0 {
            None
        } else {
            match self.current_index {
                Some(index) => if index > 0 {
                    Some(index - 1)
                } else if self.mode == PlayMode::LoopAll {
                    Some(len - 1)
                } else {
                    Some(0)
                },
                None => Some(0),
            }
        };
    }

    /// Makes a song the current one. A song that the playlist lacks is put in after the
    /// current one.
    pub(crate) fn select_song(&mut self, song_id: u64)
        ensures
            final(self)@ == old(self)@.with_current(song_id),
    {
        let previous_song = self.get_current_id();
        match find_song(&self.playlist, song_id) {
            Some(index) => {
                self.current_index = Some(index);
            },
            None => {
                let index = self.insert_position();
                let mut single: Vec<u64> = Vec::new();
                single.push(song_id);
                assert(single@ =~= seq![song_id]);
                splice_songs(&mut self.playlist, index, &single);
                self.current_index = Some(index);
                self.insert_into_original(previous_song, &single);
            },
        }
    }

    fn insert_position(&self) -> (index: usize)
        ensures
            index == self@.insert_index(),
            index <= self.playlist.len(),
    {
        match self.current_index {
            Some(index) if index < self.playlist.len() => index + 1,
            _ => self.playlist.len(),
        }
    }

    fn insert_into_original(&mut self, after: Option<u64>, song_ids: &Vec<u64>)
        ensures
            final(self)@ == (PlayerState {
                original_playlist: old(self)@.original_with(after, song_ids@),
                ..old(self)@
            }),
    {
        if let Some(original) = self.original_playlist.take() {
            let mut longer = original;
            let index = match after {
                Some(song_id) => match find_song(&longer, song_id) {
                    Some(index) => index + 1,
                    None => longer.len(),
                },
                None => longer.len(),
            };
            splice_songs(&mut longer, index, song_ids);
            self.original_playlist = Some(longer);
        }
    }

    /// Whether a song can be played right away.
    fn song_is_ready(&self, song_id: u64) -> (ready: bool)
        ensures
            ready == self@.is_ready(song_id),
    {
        matches!(self.songs.get(&song_id), Some(TrackSource::Ready(_)))
    }

    /// Whether a song would have to be fetched.
    fn song_is_wanted(&self, song_id: u64) -> (wanted: bool)
        ensures
            wanted == self@.is_wanted(song_id),
    {
        !matches!(
            self.songs.get(&song_id),
            Some(TrackSource::Ready(_)) | Some(TrackSource::Downloading)
        )
    }

    /// The songs to fetch ahead.
    pub(crate) fn predicted_download_ids(&self) -> (song_ids: Vec<u64>)
        ensures
            song_ids@ == self@.predicted(),
    {
        let mut song_ids: Vec<u64> = Vec::new();
        let lookahead = self.runtime_config.predict_prefetch_count;
        let len = self.playlist.len();
        let ghost upcoming = self@.upcoming();
        let ghost is_ready = |song_id: u64| self@.is_ready(song_id);
        let ghost is_wanted = |song_id: u64| self@.is_wanted(song_id);
        let start = match self.current_index {
            Some(index) if index < len => index + 1,
            _ => len,
        };
        assert(upcoming =~= self.playlist@.skip(start as int));

        let mut ready_count: usize = 0;
        let mut i: usize = start;
        while i < len
            invariant
                start <= i <= len,
                len == self.playlist.len(),
                upcoming == self.playlist@.skip(start as int),
                is_ready == (|song_id: u64| self@.is_ready(song_id)),
                ready_count == upcoming.take(i - start).filter(is_ready).len(),
                ready_count <= i - start,
            decreases len - i,
        {
            let ghost seen = upcoming.take(i - start);
            assert(upcoming.take(i - start + 1) =~= seen.push(self.playlist@[i as int]));
            proof {
                seen.lemma_filter_push(self.playlist@[i as int], is_ready);
            }
            if self.song_is_ready(self.playlist[i]) {
                ready_count += 1;
            }
            i += 1;
        }
        assert(upcoming.take(len - start) =~= upcoming);
        if ready_count >= lookahead {
            return song_ids;
        }

        let mut i: usize = start;
        assert(upcoming.take(0).filter(is_wanted) =~= Seq::<u64>::empty());
        while i < len
            invariant
                start <= i <= len,
                len == self.playlist.len(),
                upcoming == self.playlist@.skip(start as int),
                upcoming == self@.upcoming(),
                is_wanted == (|song_id: u64| self@.is_wanted(song_id)),
                is_ready == (|song_id: u64| self@.is_ready(song_id)),
                ready_count == upcoming.filter(is_ready).len(),
                ready_count < lookahead,
                lookahead == self@.runtime_config.predict_prefetch_count,
                song_ids@ == distinct(upcoming.take(i - start).filter(is_wanted)),
                song_ids@.len() < lookahead,
            decreases len - i,
        {
            let song_id = self.playlist[i];
            let ghost seen = upcoming.take(i - start);
            let ghost longer = upcoming.take(i - start + 1);
            assert(longer =~= seen.push(song_id));
            proof {
                seen.lemma_filter_push(song_id, is_wanted);
            }
            if self.song_is_wanted(song_id) {
                assert(longer.filter(is_wanted).drop_last() =~= seen.filter(is_wanted));
                if !has_song(&song_ids, song_id) {
                    song_ids.push(song_id);
                }
            }
            assert(song_ids@ == distinct(longer.filter(is_wanted)));
            if song_ids.len() >= lookahead {
                proof {
                    let rest = upcoming.skip(i - start + 1);
                    assert(upcoming =~= longer + rest);
                    Seq::filter_distributes_over_add(longer, rest, is_wanted);
                    let all = upcoming.filter(is_wanted);
                    let part = longer.filter(is_wanted);
                    assert(all.take(part.len() as int) =~= part);
                    lemma_distinct_is_monotonic(all, part.len() as int);
                    assert(at_most(distinct(all), lookahead as int) =~= song_ids@);
                }
                return song_ids;
            }
            i += 1;
        }
        assert(upcoming.take(len - start) =~= upcoming);
        song_ids
    }

    /// Enters a song into the history.
    pub(crate) fn push_history(&mut self, song_id: u64)
        ensures
            final(self)@ == (PlayerState {
                history: with_played(
                    old(self)@.history,
                    song_id,
                    old(self)@.runtime_config.history_capacity,
                ),
                ..old(self)@
            }),
    {
        let len = self.history.len();
        if len > 0 && self.history[len - 1] == song_id {
            return;
        }
        let bound: usize = if self.runtime_config.history_capacity < 1 {
            1
        } else {
            self.runtime_config.history_capacity
        };
        self.history.push_back(song_id);
        let ghost longer = old(self)@.history.push(song_id);
        assert(longer.skip(0) =~= longer);
        while self.history.len() > bound
            invariant
                bound == history_bound(old(self)@.runtime_config.history_capacity),
                longer == old(self)@.history.push(song_id),
                self.history@.len() <= longer.len(),
                self.history@ == longer.skip(longer.len() - self.history@.len()),
                longer.len() > bound ==> self.history@.len() >= bound,
                longer.len() <= bound ==> self.history@.len() == longer.len(),
                self@ == (PlayerState { history: self.history@, ..old(self)@ }),
            decreases self.history.len(),
        {
            let _ = self.history.pop_front();
            assert(self.history@ =~= longer.skip(longer.len() - self.history@.len()));
        }
    }

    /// What is known of the current song.
    pub(crate) fn current_track_source(&self) -> (track: Option<(u64, TrackSource)>)
        ensures
            match track {
                Some((song_id, source)) => self@.current_song() == Some(song_id)
                    && self@.current_source() == Some(source),
                None => self@.current_song() is None,
            },
    {
        match self.get_current_id() {
            Some(song_id) => {
                let source = match self.songs.get(&song_id) {
                    Some(TrackSource::Missing) => TrackSource::Missing,
                    Some(TrackSource::Ready(path)) => TrackSource::Ready(path.clone()),
                    Some(TrackSource::Unplayable) => TrackSource::Unplayable,
                    Some(TrackSource::Downloading) => TrackSource::Downloading,
                    None => TrackSource::Missing,
                };
                Some((song_id, source))
            },
            None => None,
        }
    }

    /// Whether the current song cannot be played before a download ends.
    pub(crate) fn current_track_requires_download(&self) -> (required: bool)
        ensures
            required == self@.current_requires_download(),
    {
        matches!(
            self.current_track_source(),
            Some((_, TrackSource::Missing)) | Some((_, TrackSource::Downloading))
        )
    }

    /// Replaces the playlist. The command that is returned, if any, stops what plays.
    pub fn replace_playlist(
        &mut self,
        new_playlist: Vec<u64>,
        playlist_base: PlaylistBase,
        sink: SinkState,
    ) -> (command: Option<Command>)
        ensures
            final(self)@ == old(self)@.with_playlist(new_playlist@, playlist_base),
            final(self)@.playlist == new_playlist@,
            final(self)@.playlist_base == playlist_base,
            final(self)@.current_index is None,
            final(self)@.last_status == PlayStatus::Stopped,
            final(self)@.pending_seek_after_start is None,
            final(self)@.shuffle_state == ShuffleState::Disabled,
            command is Some <==> !sink.empty || sink.paused,
            match command {
                Some(command) => has_audio(sink) && command is Stop,
                None => !has_audio(sink),
            },
            old(self)@.consistent() ==> final(self)@.consistent(),
    {
        self.current_index = None;
        self.playlist = new_playlist;
        self.shuffle_state = ShuffleState::Disabled;
        self.original_playlist = None;
        self.error_count = 0;
        self.last_status = PlayStatus::Stopped;
        self.pending_seek_after_start = None;
        self.playlist_base = playlist_base;
        if !sink.empty || sink.paused {
            Some(Command::Stop)
        } else {
            None
        }
    }

    /// Puts songs in after the current one. The command that is returned, if any, fetches the
    /// first of them. The player waits for that download only if the current song is among
    /// them and cannot be played without it.
    pub fn insert_songs(&mut self, song_ids: &Vec<u64>) -> (command: Option<Command>)
        ensures
            old(self)@.current_index matches Some(index) ==> 0 <= index < old(self)@.playlist.len()
                ==> final(self)@.playlist == old(self)@.playlist.take(index + 1) + song_ids@
                + old(self)@.playlist.skip(index + 1) && final(self)@.current_index == Some(index),
            old(self)@.current_index is None ==> final(self)@.playlist == old(self)@.playlist
                + song_ids@,
            ({
                let longer = old(self)@.with_songs(song_ids@);
                let fetched = at_most(
                    song_ids@,
                    old(self)@.runtime_config.insert_prefetch_count as int,
                );
                &&& final(self)@ == (if longer.current_requires_download() && fetched.contains(
                    longer.current_song()->0,
                ) {
                    longer.with_status(PlayStatus::Downloading)
                } else {
                    longer
                })
                &&& match command {
                    Some(Command::Download { song_ids, stop_first }) => fetched.len() > 0
                        && song_ids@ == fetched && !stop_first,
                    Some(_) => false,
                    None => fetched.len() == 0,
                }
            }),
            old(self)@.consistent() ==> final(self)@.consistent(),
    {
        assert(old(self)@.playlist + Seq::<u64>::empty() =~= old(self)@.playlist);
        if song_ids.len() == 0 {
            assert(song_ids@ =~= Seq::<u64>::empty());
            proof {
                if let Some(index) = old(self)@.current_index {
                    if 0 <= index < old(self)@.playlist.len() {
                        assert(old(self)@.playlist.take(index + 1) + song_ids@
                            + old(self)@.playlist.skip(index + 1) =~= old(self)@.playlist);
                    }
                }
            }
            return None;
        }
        if self.playlist.len() == 0 {
            self.playlist = copy_songs(song_ids);
            self.current_index = Some(0);
        } else {
            let index = self.insert_position();
            splice_songs(&mut self.playlist, index, song_ids);
            if self.current_index.is_none() {
                self.current_index = Some(0);
            }
        }
        let current_song = self.get_current_id();
        self.insert_into_original(current_song, song_ids);
        assert(self@ =~= old(self)@.with_songs(song_ids@));
        assert(old(self)@.current_index is None ==> self@.playlist =~= old(self)@.playlist
            + song_ids@);
        proof {
            if old(self)@.consistent() {
                lemma_insert_keeps_consistency(old(self)@, song_ids@);
            }
        }
        let fetched = first_songs(song_ids, self.runtime_config.insert_prefetch_count);
        if fetched.len() == 0 {
            return None;
        }
        if let Some(song_id) = current_song {
            if self.current_track_requires_download() && has_song(&fetched, song_id) {
                self.last_status = PlayStatus::Downloading;
            }
        }
        Some(Command::Download { song_ids: fetched, stop_first: false })
    }

    /// Notes that songs are being downloaded.
    pub fn downloads_started(&mut self, song_ids: &Vec<u64>)
        ensures
            old(self)@.all_sourced(song_ids@, TrackSource::Downloading, final(self)@),
            old(self)@.consistent() ==> final(self)@.consistent(),
    {
        self.set_sources(song_ids, false);
    }

    /// Notes that songs were asked for in vain: none of them can be played, and nobody waits for
    /// one of them any longer.
    pub fn downloads_failed(&mut self, song_ids: &Vec<u64>)
        ensures
            old(self)@.all_sourced(song_ids@, TrackSource::Unplayable, final(self)@),
            old(self)@.consistent() ==> final(self)@.consistent(),
    {
        self.set_sources(song_ids, true);
    }

    fn set_sources(&mut self, song_ids: &Vec<u64>, failed: bool)
        ensures
            old(self)@.all_sourced(song_ids@, fetch_source(failed), final(self)@),
            old(self)@.consistent() ==> final(self)@.consistent(),
    {
        let mut i: usize = 0;
        while i < song_ids.len()
            invariant
                i <= song_ids.len(),
                self@ == (PlayerState { songs: self@.songs, ..old(self)@ }),
                forall|song_id: u64|
                    #![trigger self@.source_of(song_id)]
                    self@.source_of(song_id) == (if song_ids@.take(i as int).contains(song_id) {
                        fetch_source(failed)
                    } else {
                        old(self)@.source_of(song_id)
                    }),
            decreases song_ids.len() - i,
        {
            let ghost before = self@;
            let source = if failed {
                TrackSource::Unplayable
            } else {
                TrackSource::Downloading
            };
            self.songs.insert(song_ids[i], source);
            assert(song_ids@.take(i + 1) =~= song_ids@.take(i as int).push(song_ids[i as int]));
            assert forall|song_id: u64|
                #![trigger self@.source_of(song_id)]
                self@.source_of(song_id) == (if song_ids@.take(i + 1).contains(song_id) {
                    fetch_source(failed)
                } else {
                    old(self)@.source_of(song_id)
                }) by {
                assert(before.source_of(song_id) == (if song_ids@.take(i as int).contains(
                    song_id,
                ) {
                    fetch_source(failed)
                } else {
                    old(self)@.source_of(song_id)
                }));
                lemma_push_contains(song_ids@.take(i as int), song_ids[i as int], song_id);
            }
            i += 1;
        }
        assert(song_ids@.take(i as int) =~= song_ids@);
    }

    /// Notes how a download ended: with the path of a file, or without one.
    pub fn download_finished(&mut self, song_id: u64, path: Option<String>)
        ensures
            final(self)@ == old(self)@.with_source(
                song_id,
                match path {
                    Some(path) => TrackSource::Ready(path),
                    None => TrackSource::Unplayable,
                },
            ),
            final(self)@.songs == old(self)@.songs.insert(
                song_id,
                match path {
                    Some(path) => TrackSource::Ready(path),
                    None => TrackSource::Unplayable,
                },
            ),
            final(self)@.last_status == old(self)@.last_status,
            final(self)@.current_index == old(self)@.current_index,
            old(self)@.consistent() ==> final(self)@.consistent(),
    {
        let source = match path {
            Some(path) => TrackSource::Ready(path),
            None => TrackSource::Unplayable,
        };
        self.songs.insert(song_id, source);
    }
}

/// What is known of songs that were asked for, before an answer came or once there is none.
spec fn fetch_source(failed: bool) -> TrackSource {
    if failed {
        TrackSource::Unplayable
    } else {
        TrackSource::Downloading
    }
}

proof fn lemma_push_contains(list: Seq<u64>, last: u64, song_id: u64)
    ensures
        list.push(last).contains(song_id) <==> (list.contains(song_id) || song_id == last),
{
    if list.contains(song_id) {
        let i = choose|i: int| 0 <= i < list.len() && list[i] == song_id;
        assert(list.push(last)[i] == song_id);
    }
    assert(list.push(last).last() == last);
}

} // verus!
