//! Lists of songs: selecting rows, playing what is selected, and putting covers in.
use std::collections::HashSet;

use vstd::prelude::*;

use crate::app::App;
use crate::config::Config;
use crate::model::TrackDetail;
use crate::player::PlaylistBase;
use crate::types::{clock_text, singer_text, to_track_detail_detail, SongDetail};
use crate::utility::{i32x2_to_u64, joined_halves, lemma_halves_are_unique, u64_to_i32x2};

verus! {

/// Which rows of a list are selected.
pub open spec fn selection(rows: Seq<SongDetail>) -> Seq<bool> {
    rows.map_values(|row: SongDetail| row.selected)
}

/// A row with another selection.
pub open spec fn with_selected(row: SongDetail, selected: bool) -> SongDetail {
    SongDetail { selected, ..row }
}

/// The rows of a list with another selection.
pub open spec fn with_selection(rows: Seq<SongDetail>, selected: Seq<bool>) -> Seq<SongDetail> {
    Seq::new(rows.len(), |k: int| with_selected(rows[k], selected[k]))
}

/// How many are selected.
pub open spec fn selected_count(selected: Seq<bool>) -> nat {
    selected.filter(|one: bool| one).len()
}

/// Whether a row is the clicked one or a selected one.
pub open spec fn is_mark(selected: Seq<bool>, index: int, row: int) -> bool {
    row == index || (0 <= row < selected.len() && selected[row])
}

/// Whether a row lies between two marked ones, or is marked itself.
pub open spec fn is_between_marks(selected: Seq<bool>, index: int, row: int) -> bool {
    &&& exists|first: int| first <= row && #[trigger] is_mark(selected, index, first)
    &&& exists|last: int| row <= last && #[trigger] is_mark(selected, index, last)
}

/// The selection after a click on row `index`. The kinds of clicks are: 0 selects the row
/// alone, or nothing if it was selected; 1 turns the row over; 2 selects everything from the
/// first to the last marked row, where the selected rows and the clicked one count as marked;
/// 3 selects all, or nothing if all were selected. Other kinds, and a negative row, change
/// nothing.
pub open spec fn selected_after(selected: Seq<bool>, index: int, select_type: int) -> Seq<bool> {
    if index < 0 {
        selected
    } else if select_type == 0 {
        if index < selected.len() {
            Seq::new(selected.len(), |k: int| k == index && !selected[index])
        } else {
            selected
        }
    } else if select_type == 1 {
        if index < selected.len() {
            selected.update(index, !selected[index])
        } else {
            selected
        }
    } else if select_type == 2 {
        Seq::new(selected.len(), |k: int| is_between_marks(selected, index, k))
    } else if select_type == 3 {
        Seq::new(selected.len(), |k: int| selected.contains(false))
    } else {
        selected
    }
}

/// The songs of the selected rows, in order.
pub open spec fn selected_ids(rows: Seq<SongDetail>) -> Seq<u64> {
    rows.filter(|row: SongDetail| row.selected).map_values(|row: SongDetail| row.id())
}

/// What a list of songs was made from, by the numbers that the interface uses.
pub open spec fn base_of(base_type: i32, base_id: u64) -> PlaylistBase {
    if base_type == 1 {
        PlaylistBase::Playlist(base_id)
    } else if base_type == 2 {
        PlaylistBase::Album(base_id)
    } else if base_type == 3 {
        PlaylistBase::Artist(base_id)
    } else {
        PlaylistBase::Nothing
    }
}

/// The kind of a base, by the number that the interface uses.
pub open spec fn base_type_of(base: PlaylistBase) -> i32 {
    match base {
        PlaylistBase::Playlist(_) => 1,
        PlaylistBase::Album(_) => 2,
        PlaylistBase::Artist(_) => 3,
        PlaylistBase::Nothing => 0,
    }
}

/// The identifier of a base.
pub open spec fn base_id_of(base: PlaylistBase) -> u64 {
    match base {
        PlaylistBase::Playlist(id) => id,
        PlaylistBase::Album(id) => id,
        PlaylistBase::Artist(id) => id,
        PlaylistBase::Nothing => 0,
    }
}

/// What the player is to do with the selected songs.
#[derive(Debug)]
pub enum PlayRequest {
    /// Nothing is selected.
    Nothing,
    /// Play a song of the list that is being played.
    Play { song_id: u64 },
    /// Take over the list and play its only song.
    ReplaceAndPlay { songs: Vec<u64>, base: PlaylistBase, song_id: u64 },
    /// Take over the list and go on playing.
    ReplaceAndResume { songs: Vec<u64>, base: PlaylistBase },
}

/// Whether a request plays the selected songs. A single song of the list that is being played is
/// just played; otherwise the selected songs become the list.
pub open spec fn plays_selection(
    request: PlayRequest,
    songs: Seq<u64>,
    base: PlaylistBase,
    playing: PlaylistBase,
) -> bool {
    match request {
        PlayRequest::Nothing => songs.len() == 0,
        PlayRequest::Play { song_id } => songs == seq![song_id] && base == playing,
        PlayRequest::ReplaceAndPlay { songs: list, base: new_base, song_id } => songs == seq![
            song_id,
        ] && base != playing && list@ == songs && new_base == base,
        PlayRequest::ReplaceAndResume { songs: list, base: new_base } => songs.len() > 1 && list@
            == songs && new_base == base,
    }
}

/// A cover that a row needs.
#[derive(Debug)]
pub struct CoverJob {
    pub row: usize,
    /// What the cover belongs to.
    pub id: u64,
    pub url: String,
}

/// Whether a row shows a song that nobody has selected yet.
pub open spec fn shows_track(row: SongDetail, track: TrackDetail, loved_ids: Set<u64>) -> bool {
    &&& !row.selected
    &&& row.album@ == track.album.name@
    &&& row.duration@ == clock_text(track.duration as nat)
    &&& row.id() == track.id
    &&& row.album_id() == track.album.id
    &&& row.name@ == track.name@
    &&& row.pic_url@ == track.album.pic_url@
    &&& row.singer@ == singer_text(track@.artist)
    &&& row.loved == loved_ids.contains(track.id)
}

/// Selects a row, or takes the selection from it.
fn set_selected(rows: &mut Vec<SongDetail>, row: usize, selected: bool)
    requires
        row < old(rows)@.len(),
    ensures
        final(rows)@ == old(rows)@.update(
            row as int,
            with_selected(old(rows)@[row as int], selected),
        ),
{
    rows[row].selected = selected;
}

/// Selects the rows `from..to`, or takes the selection from them. The others stay as they are.
fn set_range(rows: &mut Vec<SongDetail>, from: usize, to: usize, selected: bool)
    requires
        from <= to <= old(rows)@.len(),
    ensures
        final(rows)@ == with_selection(
            old(rows)@,
            Seq::new(
                old(rows)@.len(),
                |k: int|
                    if from <= k < to {
                        selected
                    } else {
                        old(rows)@[k].selected
                    },
            ),
        ),
{
    let mut row: usize = from;
    while row < to
        invariant
            from <= row <= to <= old(rows)@.len(),
            rows@.len() == old(rows)@.len(),
            forall|k: int|
                0 <= k < rows@.len() ==> #[trigger] rows@[k] == (if from <= k < row {
                    with_selected(old(rows)@[k], selected)
                } else {
                    old(rows)@[k]
                }),
        decreases to - row,
    {
        set_selected(rows, row, selected);
        row += 1;
    }
    assert(rows@ =~= with_selection(
        old(rows)@,
        Seq::new(
            old(rows)@.len(),
            |k: int|
                if from <= k < to {
                    selected
                } else {
                    old(rows)@[k].selected
                },
        ),
    ));
}

fn count_selected(rows: &Vec<SongDetail>) -> (count: usize)
    ensures
        count == selected_count(selection(rows@)),
        count <= rows@.len(),
{
    let mut count: usize = 0;
    let mut row: usize = 0;
    let ghost all = selection(rows@);
    let ghost pick = |one: bool| one;
    proof {
        reveal(Seq::filter);
        assert(all.take(0).filter(pick).len() == 0);
    }
    while row < rows.len()
        invariant
            row <= rows.len(),
            all == selection(rows@),
            pick == (|one: bool| one),
            count == all.take(row as int).filter(pick).len(),
            count <= row,
        decreases rows.len() - row,
    {
        proof {
            reveal(Seq::filter);
            assert(all.take(row + 1).drop_last() =~= all.take(row as int));
        }
        if rows[row].selected {
            count += 1;
        }
        row += 1;
    }
    assert(all.take(row as int) =~= all);
    count
}

/// The first selected row.
fn first_selected(rows: &Vec<SongDetail>) -> (first: Option<usize>)
    ensures
        match first {
            Some(first) => first < rows@.len() && rows@[first as int].selected && forall|k: int|
                0 <= k < first ==> !(#[trigger] rows@[k]).selected,
            None => forall|k: int| 0 <= k < rows@.len() ==> !(#[trigger] rows@[k]).selected,
        },
{
    let mut row: usize = 0;
    while row < rows.len()
        invariant
            row <= rows.len(),
            forall|k: int| 0 <= k < row ==> !(#[trigger] rows@[k]).selected,
        decreases rows.len() - row,
    {
        if rows[row].selected {
            return Some(row);
        }
        row += 1;
    }
    None
}

/// The last selected row, or 0.
fn last_selected(rows: &Vec<SongDetail>) -> (last: usize)
    ensures
        forall|k: int| last < k < rows@.len() ==> !(#[trigger] rows@[k]).selected,
        last == 0 || (last < rows@.len() && rows@[last as int].selected),
{
    let mut row: usize = rows.len();
    while row > 0
        invariant
            row <= rows.len(),
            forall|k: int| row <= k < rows@.len() ==> !(#[trigger] rows@[k]).selected,
        decreases row,
    {
        row -= 1;
        if rows[row].selected {
            return row;
        }
    }
    0
}

impl App {
    /// Handles a click on a row and tells how many rows are then selected.
    pub fn songlist_select(i: i32, select_type: i32, rows: &mut Vec<SongDetail>) -> (count: i32)
        ensures
            final(rows)@ == with_selection(
                old(rows)@,
                selected_after(selection(old(rows)@), i as int, select_type as int),
            ),
            count == selected_count(
                selected_after(selection(old(rows)@), i as int, select_type as int),
            ) as i32,
    {
        let ghost before = rows@;
        let ghost selected = selection(rows@);
        let ghost wanted = selected_after(selected, i as int, select_type as int);
        assert(with_selection(before, selected) =~= before);
        if i >= 0 {
            let index: usize = i as usize;
            match select_type {
                0 => {
                    if index < rows.len() {
                        let was = rows[index].selected;
                        let length = rows.len();
                        set_range(rows, 0, length, false);
                        set_selected(rows, index, !was);
                        assert(rows@ =~= with_selection(before, wanted));
                    }
                },
                1 => {
                    if index < rows.len() {
                        let was = rows[index].selected;
                        set_selected(rows, index, !was);
                        assert(rows@ =~= with_selection(before, wanted));
                    }
                },
                2 => {
                    App::select_range(index, rows);
                },
                3 => {
                    let mut all = true;
                    let mut row: usize = 0;
                    while row < rows.len()
                        invariant
                            row <= rows.len(),
                            rows@ == before,
                            selected == selection(before),
                            all == !selected.take(row as int).contains(false),
                        decreases rows.len() - row,
                    {
                        proof {
                            let shorter = selected.take(row as int);
                            let longer = selected.take(row + 1);
                            assert(longer =~= shorter.push(selected[row as int]));
                            assert(longer[row as int] == selected[row as int]);
                            if shorter.contains(false) {
                                let k = choose|k: int| 0 <= k < shorter.len() && !shorter[k];
                                assert(!longer[k]);
                            }
                            if longer.contains(false) && selected[row as int] {
                                let k = choose|k: int| 0 <= k < longer.len() && !longer[k];
                                assert(!shorter[k]);
                            }
                        }
                        if !rows[row].selected {
                            all = false;
                        }
                        row += 1;
                    }
                    assert(selected.take(row as int) =~= selected);
                    let length = rows.len();
                    set_range(rows, 0, length, !all);
                    assert(rows@ =~= with_selection(before, wanted));
                },
                _ => {},
            }
        }
        assert(rows@ =~= with_selection(before, wanted));
        assert(selection(rows@) =~= wanted);
        count_selected(rows) as i32
    }

    /// Selects everything from the first to the last marked row.
    fn select_range(index: usize, rows: &mut Vec<SongDetail>)
        ensures
            final(rows)@ == with_selection(
                old(rows)@,
                selected_after(selection(old(rows)@), index as int, 2),
            ),
    {
        let ghost before = rows@;
        let ghost selected = selection(rows@);
        let ghost wanted = selected_after(selected, index as int, 2);
        let length = rows.len();
        match first_selected(rows) {
            None => {
                assert forall|k: int| is_mark(selected, index as int, k) <==> k == index by {
                    if 0 <= k < selected.len() {
                        assert(!before[k].selected);
                    }
                }
                assert(is_mark(selected, index as int, index as int));
                if index < length {
                    set_selected(rows, index, true);
                }
                assert(rows@ =~= with_selection(before, wanted));
            },
            Some(first) => {
                let last = last_selected(rows);
                let start = if first < index {
                    first
                } else {
                    index
                };
                let end = if last > index {
                    last
                } else {
                    index
                };
                let stop = if end < length {
                    end + 1
                } else {
                    length
                };
                proof {
                    assert(is_mark(selected, index as int, first as int));
                    assert(is_mark(selected, index as int, index as int));
                    assert(before[first as int].selected);
                    assert(last >= first);
                    assert(is_mark(selected, index as int, last as int));
                    assert forall|k: int| 0 <= k < length implies is_between_marks(
                        selected,
                        index as int,
                        k,
                    ) == (start <= k < stop) by {
                        if is_between_marks(selected, index as int, k) {
                            let a = choose|a: int|
                                a <= k && #[trigger] is_mark(selected, index as int, a);
                            let b = choose|b: int|
                                k <= b && #[trigger] is_mark(selected, index as int, b);
                            if a != index {
                                assert(before[a].selected);
                                assert(a >= first);
                            }
                            if b != index {
                                assert(before[b].selected);
                                assert(b <= last);
                            }
                        }
                        if start <= k < stop {
                            assert(is_mark(selected, index as int, start as int));
                            assert(is_mark(selected, index as int, end as int));
                        }
                    }
                    assert forall|k: int| 0 <= k < length && !(start <= k < stop) implies !(
                    #[trigger] before[k]).selected by {
                        if before[k].selected {
                            assert(is_mark(selected, index as int, k));
                            assert(is_between_marks(selected, index as int, k));
                        }
                    }
                }
                set_range(rows, start, stop, true);
                assert(rows@ =~= with_selection(before, wanted));
            },
        }
    }

    /// Takes the selection from every row.
    pub fn songlist_clear_select(rows: &mut Vec<SongDetail>)
        ensures
            final(rows)@ == with_selection(
                old(rows)@,
                Seq::new(old(rows)@.len(), |k: int| false),
            ),
    {
        let length = rows.len();
        set_range(rows, 0, length, false);
        assert(rows@ =~= with_selection(old(rows)@, Seq::new(old(rows)@.len(), |k: int| false)));
    }

    /// The songs of the selected rows.
    pub fn songlist_selected(rows: &Vec<SongDetail>) -> (songs: Vec<u64>)
        ensures
            songs@ == selected_ids(rows@),
    {
        let mut songs: Vec<u64> = Vec::new();
        let mut row: usize = 0;
        proof {
            reveal(Seq::filter);
            assert(selected_ids(rows@.take(0)) =~= Seq::empty());
        }
        while row < rows.len()
            invariant
                row <= rows.len(),
                songs@ == selected_ids(rows@.take(row as int)),
            decreases rows.len() - row,
        {
            proof {
                reveal(Seq::filter);
                let shorter = rows@.take(row as int);
                let longer = rows@.take(row + 1);
                assert(longer.drop_last() =~= shorter);
                assert(selected_ids(longer) =~= if rows@[row as int].selected {
                    selected_ids(shorter).push(rows@[row as int].id())
                } else {
                    selected_ids(shorter)
                });
                lemma_halves_are_unique(
                    rows@[row as int].id_1,
                    rows@[row as int].id_2,
                    rows@[row as int].id_1,
                    rows@[row as int].id_2,
                );
            }
            if rows[row].selected {
                songs.push(i32x2_to_u64(rows[row].id_1, rows[row].id_2));
            }
            row += 1;
        }
        assert(rows@.take(row as int) =~= rows@);
        songs
    }

    /// Decides how the selected songs are played. A single song of the list that is being
    /// played is just played; otherwise the selected songs become the list.
    pub fn songlist_play(
        base_id_1: i32,
        base_id_2: i32,
        base_type: i32,
        rows: &mut Vec<SongDetail>,
        playing: PlaylistBase,
    ) -> (request: PlayRequest)
        ensures
            plays_selection(
                request,
                selected_ids(old(rows)@),
                base_of(base_type, joined_halves(base_id_1, base_id_2) as u64),
                playing,
            ),
            ({
                let songs = selected_ids(old(rows)@);
                let base = base_of(base_type, joined_halves(base_id_1, base_id_2) as u64);
                match request {
                    PlayRequest::Nothing => songs.len() == 0,
                    PlayRequest::Play { song_id } => {
                        &&& songs == seq![song_id]
                        &&& base == playing
                    },
                    PlayRequest::ReplaceAndPlay { songs: list, base: new_base, song_id } => {
                        &&& songs == seq![song_id]
                        &&& base != playing
                        &&& list@ == songs
                        &&& new_base == base
                    },
                    PlayRequest::ReplaceAndResume { songs: list, base: new_base } => {
                        &&& songs.len() > 1
                        &&& list@ == songs
                        &&& new_base == base
                    },
                }
            }),
            final(rows)@ == (if selected_ids(old(rows)@).len() == 0 {
                old(rows)@
            } else {
                with_selection(old(rows)@, Seq::new(old(rows)@.len(), |k: int| false))
            }),
    {
        proof {
            lemma_halves_are_unique(base_id_1, base_id_2, base_id_1, base_id_2);
        }
        let base = App::playlist_base(base_type, i32x2_to_u64(base_id_1, base_id_2));
        let songs = App::songlist_selected(rows);
        if songs.len() == 0 {
            return PlayRequest::Nothing;
        }
        App::songlist_clear_select(rows);
        if songs.len() > 1 {
            return PlayRequest::ReplaceAndResume { songs, base };
        }
        let song_id = songs[0];
        assert(songs@ =~= seq![song_id]);
        if base == playing {
            PlayRequest::Play { song_id }
        } else {
            PlayRequest::ReplaceAndPlay { songs, base, song_id }
        }
    }

    /// Gives the selected songs, to be put into the list that is being played, and takes the
    /// selection from every row.
    pub fn songlist_insert(rows: &mut Vec<SongDetail>) -> (songs: Vec<u64>)
        ensures
            songs@ == selected_ids(old(rows)@),
            final(rows)@ == with_selection(
                old(rows)@,
                Seq::new(old(rows)@.len(), |k: int| false),
            ),
    {
        let songs = App::songlist_selected(rows);
        App::songlist_clear_select(rows);
        songs
    }

    /// What a list of songs was made from.
    pub fn playlist_base(base_type: i32, base_id: u64) -> (base: PlaylistBase)
        ensures
            base == base_of(base_type, base_id),
    {
        match base_type {
            1 => PlaylistBase::Playlist(base_id),
            2 => PlaylistBase::Album(base_id),
            3 => PlaylistBase::Artist(base_id),
            _ => PlaylistBase::Nothing,
        }
    }

    /// The numbers by which the interface knows what a list of songs was made from: the kind,
    /// and the halves of the identifier.
    pub fn base_numbers(base: PlaylistBase) -> (numbers: (i32, i32, i32))
        ensures
            numbers.0 == base_type_of(base),
            joined_halves(numbers.1, numbers.2) == base_id_of(base),
    {
        let (base_type, id): (i32, u64) = match base {
            PlaylistBase::Playlist(id) => (1, id),
            PlaylistBase::Album(id) => (2, id),
            PlaylistBase::Artist(id) => (3, id),
            PlaylistBase::Nothing => (0, 0),
        };
        let (id_1, id_2) = u64_to_i32x2(id);
        (base_type, id_1, id_2)
    }

    /// The rows of a list of songs.
    pub fn to_songlist_model(loved_ids: &HashSet<u64>, songs: &Vec<TrackDetail>) -> (rows: Vec<
        SongDetail,
    >)
        ensures
            rows@.len() == songs@.len(),
            forall|i: int|
                0 <= i < rows@.len() ==> shows_track(
                    #[trigger] rows@[i],
                    songs@[i],
                    loved_ids@,
                ),
    {
        let mut rows: Vec<SongDetail> = Vec::new();
        let mut i: usize = 0;
        while i < songs.len()
            invariant
                i <= songs.len(),
                rows@.len() == i,
                forall|j: int|
                    0 <= j < i ==> shows_track(#[trigger] rows@[j], songs@[j], loved_ids@),
            decreases songs.len() - i,
        {
            rows.push(to_track_detail_detail(loved_ids, &songs[i]));
            i += 1;
        }
        rows
    }

    /// The covers that the rows of a list need: those of the albums.
    pub fn songlist_cover_jobs(rows: &Vec<SongDetail>) -> (jobs: Vec<CoverJob>)
        ensures
            jobs@.len() == rows@.len(),
            forall|i: int|
                0 <= i < jobs@.len() ==> {
                    &&& (#[trigger] jobs@[i]).row == i
                    &&& jobs@[i].id == rows@[i].album_id()
                    &&& jobs@[i].url@ == rows@[i].pic_url@
                },
    {
        let mut jobs: Vec<CoverJob> = Vec::new();
        let mut i: usize = 0;
        while i < rows.len()
            invariant
                i <= rows.len(),
                jobs@.len() == i,
                forall|j: int|
                    0 <= j < i ==> {
                        &&& (#[trigger] jobs@[j]).row == j
                        &&& jobs@[j].id == rows@[j].album_id()
                        &&& jobs@[j].url@ == rows@[j].pic_url@
                    },
            decreases rows.len() - i,
        {
            jobs.push(
                CoverJob {
                    row: i,
                    id: i32x2_to_u64(rows[i].album_id_1, rows[i].album_id_2),
                    url: rows[i].pic_url.clone(),
                },
            );
            i += 1;
        }
        jobs
    }
}

/// Covers that have arrived and wait to be shown together.
pub struct CoverBatch<T> {
    pending: Vec<(usize, T)>,
}

impl<T> View for CoverBatch<T> {
    type V = Seq<(usize, T)>;

    closed spec fn view(&self) -> Seq<(usize, T)> {
        self.pending@
    }
}

impl<T> CoverBatch<T> {
    pub fn new() -> (batch: CoverBatch<T>)
        ensures
            batch@ == Seq::<(usize, T)>::empty(),
    {
        CoverBatch { pending: Vec::new() }
    }

    /// Takes a cover in, if one came, and gives those to show now: all that wait, once there
    /// are eight of them.
    pub fn arrived(&mut self, cover: Option<(usize, T)>) -> (shown: Vec<(usize, T)>)
        ensures
            ({
                let waiting = match cover {
                    Some(cover) => old(self)@.push(cover),
                    None => old(self)@,
                };
                &&& shown@ + final(self)@ == waiting
                &&& shown@.len() > 0 <==> cover is Some && waiting.len() >= 8
                &&& shown@.len() > 0 ==> final(self)@.len() == 0
            }),
    {
        let mut shown: Vec<(usize, T)> = Vec::new();
        if let Some(cover) = cover {
            self.pending.push(cover);
            if self.pending.len() >= Config::COVER_UPDATE_BATCH {
                std::mem::swap(&mut shown, &mut self.pending);
            }
        }
        assert(shown@ + self@ =~= match cover {
            Some(cover) => old(self)@.push(cover),
            None => old(self)@,
        });
        shown
    }

    /// Gives the covers that still wait, when no more will come.
    pub fn finish(self) -> (shown: Vec<(usize, T)>)
        ensures
            shown@ == self@,
    {
        self.pending
    }
}

/// The kinds and identifiers that the interface uses lead back to what the list was made from.
pub proof fn lemma_base_numbers_lead_back(base: PlaylistBase)
    ensures
        base_of(base_type_of(base), base_id_of(base)) == base,
{
}

/// Turning the same row over twice changes nothing.
pub proof fn lemma_turning_twice_restores(selected: Seq<bool>, index: int)
    ensures
        selected_after(selected_after(selected, index, 1), index, 1) == selected,
{
    assert(selected_after(selected_after(selected, index, 1), index, 1) =~= selected);
}

/// Selecting one row alone leaves no other selected.
pub proof fn lemma_single_selection(selected: Seq<bool>, index: int, row: int)
    requires
        0 <= index < selected.len(),
        0 <= row < selected.len(),
        selected_after(selected, index, 0)[row],
    ensures
        row == index,
        !selected[index],
{
}

/// Selecting a range keeps what was selected, takes in the clicked row, leaves no gap, and
/// doing it again changes nothing.
#[verifier::spinoff_prover]
#[verifier::rlimit(30)]
pub proof fn lemma_range_selection(selected: Seq<bool>, index: int, a: int, b: int, row: int)
    requires
        0 <= a <= row <= b < selected.len(),
        0 <= index,
        selected_after(selected, index, 2)[a],
        selected_after(selected, index, 2)[b],
    ensures
        selected_after(selected, index, 2)[row],
        forall|k: int|
            0 <= k < selected.len() && #[trigger] selected[k] ==> selected_after(
                selected,
                index,
                2,
            )[k],
        index < selected.len() ==> selected_after(selected, index, 2)[index],
        selected_after(selected_after(selected, index, 2), index, 2) == selected_after(
            selected,
            index,
            2,
        ),
{
    let once = selected_after(selected, index, 2);
    let first = choose|f: int| f <= a && #[trigger] is_mark(selected, index, f);
    let last = choose|l: int| b <= l && #[trigger] is_mark(selected, index, l);
    assert(first <= row && is_mark(selected, index, first));
    assert(row <= last && is_mark(selected, index, last));
    assert(is_mark(selected, index, index));
    assert forall|k: int| 0 <= k < selected.len() && #[trigger] selected[k] implies once[k] by {
        assert(is_mark(selected, index, k));
    }
    let twice = selected_after(once, index, 2);
    assert forall|k: int| 0 <= k < selected.len() implies once[k] == twice[k] by {
        if once[k] {
            assert(is_mark(once, index, k));
        }
        if twice[k] {
            let f = choose|f: int| f <= k && #[trigger] is_mark(once, index, f);
            let l = choose|l: int| k <= l && #[trigger] is_mark(once, index, l);
            if f != index {
                assert(is_between_marks(selected, index, f));
                let g = choose|g: int| g <= f && #[trigger] is_mark(selected, index, g);
                assert(g <= k && is_mark(selected, index, g));
            }
            if l != index {
                assert(is_between_marks(selected, index, l));
                let g = choose|g: int| l <= g && #[trigger] is_mark(selected, index, g);
                assert(k <= g && is_mark(selected, index, g));
            }
        }
    }
    assert(once =~= twice);
}

/// Selecting all twice takes the selection from every row, unless there is none.
pub proof fn lemma_selecting_all_twice(selected: Seq<bool>, index: int)
    requires
        0 <= index,
        selected.contains(false),
    ensures
        forall|k: int| 0 <= k < selected.len() ==> #[trigger] selected_after(selected, index, 3)[k],
        forall|k: int|
            0 <= k < selected.len() ==> !#[trigger] selected_after(
                selected_after(selected, index, 3),
                index,
                3,
            )[k],
{
}

/// What the kinds of clicks do. The first selects the clicked row alone, or nothing if it was
/// selected. The second turns the clicked row over. The third selects every row that lies between
/// two rows which are selected or clicked, or is such a row. The fourth selects all rows, or none
/// if all were selected. A click outside the list, or of another kind, changes nothing.
pub proof fn lemma_what_clicks_select(selected: Seq<bool>, index: int, row: int)
    requires
        0 <= row < selected.len(),
        0 <= index,
    ensures
        index < selected.len() ==> {
            &&& selected_after(selected, index, 0)[row] <==> row == index && !selected[index]
            &&& selected_after(selected, index, 1)[row] <==> (if row == index {
                !selected[row]
            } else {
                selected[row]
            })
        },
        index >= selected.len() ==> selected_after(selected, index, 0) == selected
            && selected_after(selected, index, 1) == selected,
        selected_after(selected, index, 2)[row] <==> {
            &&& index <= row || exists|a: int| 0 <= a <= row && #[trigger] selected[a]
            &&& row <= index || exists|b: int|
                row <= b < selected.len() && #[trigger] selected[b]
        },
        selected_after(selected, index, 3)[row] <==> exists|k: int|
            0 <= k < selected.len() && !(#[trigger] selected[k]),
        forall|select_type: int|
            select_type < 0 || select_type > 3 ==> #[trigger] selected_after(
                selected,
                index,
                select_type,
            ) == selected,
        forall|select_type: int| #[trigger]
            selected_after(selected, -1 - index, select_type) == selected,
        forall|select_type: int| #[trigger]
            selected_after(selected, index, select_type).len() == selected.len(),
{
    if selected_after(selected, index, 2)[row] {
        let a = choose|a: int| a <= row && #[trigger] is_mark(selected, index, a);
        let b = choose|b: int| row <= b && #[trigger] is_mark(selected, index, b);
        assert(index <= row || (0 <= a <= row && selected[a]));
        assert(row <= index || (row <= b < selected.len() && selected[b]));
    }
    assert(is_mark(selected, index, index));
    if exists|a: int| 0 <= a <= row && #[trigger] selected[a] {
        let a = choose|a: int| 0 <= a <= row && #[trigger] selected[a];
        assert(is_mark(selected, index, a));
    }
    if exists|b: int| row <= b < selected.len() && #[trigger] selected[b] {
        let b = choose|b: int| row <= b < selected.len() && #[trigger] selected[b];
        assert(is_mark(selected, index, b));
    }
}

/// Selecting rows changes nothing else of them.
pub proof fn lemma_selecting_keeps_the_rows(rows: Seq<SongDetail>, selected: Seq<bool>, k: int)
    requires
        0 <= k < rows.len(),
    ensures
        with_selection(rows, selected).len() == rows.len(),
        with_selection(rows, selected)[k].selected == selected[k],
        with_selection(rows, selected)[k].name == rows[k].name,
        with_selection(rows, selected)[k].id_1 == rows[k].id_1,
        with_selection(rows, selected)[k].id_2 == rows[k].id_2,
        with_selection(rows, selected)[k].album == rows[k].album,
        with_selection(rows, selected)[k].album_id_1 == rows[k].album_id_1,
        with_selection(rows, selected)[k].album_id_2 == rows[k].album_id_2,
        with_selection(rows, selected)[k].duration == rows[k].duration,
        with_selection(rows, selected)[k].pic_url == rows[k].pic_url,
        with_selection(rows, selected)[k].singer == rows[k].singer,
        with_selection(rows, selected)[k].loved == rows[k].loved,
        selection(rows).len() == rows.len(),
        selection(rows)[k] == rows[k].selected,
{
}

/// The selected songs are those of the selected rows, each with the identifier that its row shows,
/// in the order of the rows; and they are counted one by one.
pub proof fn lemma_selected_songs_are_listed(rows: Seq<SongDetail>, row: SongDetail)
    ensures
        selected_ids(Seq::empty()).len() == 0,
        selected_ids(rows.push(row)) == (if row.selected {
            selected_ids(rows).push(joined_halves(row.id_1, row.id_2) as u64)
        } else {
            selected_ids(rows)
        }),
        selected_count(Seq::empty()) == 0,
        selected_count(selection(rows).push(row.selected)) == selected_count(selection(rows)) + (
        if row.selected {
            1int
        } else {
            0
        }),
{
    reveal(Seq::filter);
    assert(selected_ids(Seq::empty()) =~= Seq::empty());
    assert(rows.push(row).drop_last() =~= rows);
    assert(selected_ids(rows.push(row)) =~= (if row.selected {
        selected_ids(rows).push(row.id())
    } else {
        selected_ids(rows)
    }));
    assert(selection(rows).push(row.selected).drop_last() =~= selection(rows));
}

/// A row shows its song: the name, the album, the singers and the length, the identifiers of the
/// song and of the album, the address of the cover, and whether the song is liked.
pub proof fn lemma_row_shows_its_song(row: SongDetail, track: TrackDetail, loved_ids: Set<u64>)
    requires
        shows_track(row, track, loved_ids),
    ensures
        row.name@ == track.name@,
        row.album@ == track.album.name@,
        row.singer@ == singer_text(track@.artist),
        row.duration@ == clock_text(track.duration as nat),
        joined_halves(row.id_1, row.id_2) == track.id,
        joined_halves(row.album_id_1, row.album_id_2) == track.album.id,
        row.pic_url@ == track.album.pic_url@,
        row.loved <==> loved_ids.contains(track.id),
        !row.selected,
{
    lemma_halves_are_unique(row.id_1, row.id_2, row.album_id_1, row.album_id_2);
    lemma_halves_are_unique(row.album_id_1, row.album_id_2, row.id_1, row.id_2);
}

/// The numbers by which the interface knows what a list was made from.
pub proof fn lemma_numbers_of_bases(id: u64)
    ensures
        base_of(1, id) == PlaylistBase::Playlist(id),
        base_of(2, id) == PlaylistBase::Album(id),
        base_of(3, id) == PlaylistBase::Artist(id),
        forall|kind: i32| kind < 1 || kind > 3 ==> base_of(kind, id) == PlaylistBase::Nothing,
        base_type_of(PlaylistBase::Nothing) == 0 && base_id_of(PlaylistBase::Nothing) == 0,
{
}

/// What is played of a selection: nothing if nothing is selected; one song just by itself where
/// its list is being played, and as a new list where it is not; several songs as a new list, in
/// their order.
pub proof fn lemma_how_a_selection_is_played(
    request: PlayRequest,
    songs: Seq<u64>,
    base: PlaylistBase,
    playing: PlaylistBase,
)
    requires
        plays_selection(request, songs, base, playing),
    ensures
        songs.len() == 0 <==> request == PlayRequest::Nothing,
        songs.len() == 1 && base == playing ==> request == (PlayRequest::Play {
            song_id: songs[0],
        }),
        songs.len() == 1 && base != playing ==> (request matches PlayRequest::ReplaceAndPlay {
            songs: list,
            base: new_base,
            song_id,
        } && list@ == songs && new_base == base && song_id == songs[0]),
        songs.len() > 1 ==> (request matches PlayRequest::ReplaceAndResume {
            songs: list,
            base: new_base,
        } && list@ == songs && new_base == base),
{
    match request {
        PlayRequest::Play { song_id } => {
            assert(songs[0] == song_id);
        },
        PlayRequest::ReplaceAndPlay { songs: _, base: _, song_id } => {
            assert(songs[0] == song_id);
        },
        _ => {},
    }
}

} // verus!
