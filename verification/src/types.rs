//! Songs as lists show them.
use std::collections::HashSet;

use vstd::prelude::*;

use crate::model::{artist_views, ArtistInTrack, ArtistView, TrackDetail};
use crate::text::{
    digits_value, join_texts, joined, lemma_joining_separates_the_parts,
    lemma_two_digits_are_written, texts, two_digits, two_digits_text,
};
use crate::utility::{joined_halves, u64_to_i32x2};

verus! {

/// A row of a list of songs. Identifiers come in two halves.
#[derive(Debug)]
pub struct SongDetail {
    pub selected: bool,
    pub album: String,
    pub duration: String,
    pub id_1: i32,
    pub id_2: i32,
    pub album_id_1: i32,
    pub album_id_2: i32,
    pub name: String,
    pub pic_url: String,
    pub singer: String,
    pub loved: bool,
}

impl SongDetail {
    /// The song.
    pub open spec fn id(self) -> u64 {
        joined_halves(self.id_1, self.id_2) as u64
    }

    /// The album of the song.
    pub open spec fn album_id(self) -> u64 {
        joined_halves(self.album_id_1, self.album_id_2) as u64
    }
}

/// A length of time in minutes and seconds, each with two digits at least, and in hours before
/// them where it takes an hour or more.
pub open spec fn clock_text(milliseconds: nat) -> Seq<char> {
    let seconds = milliseconds / 1000;
    let rest = two_digits((seconds / 60) % 60) + ":"@ + two_digits(seconds % 60);
    if seconds / 3600 == 0 {
        rest
    } else {
        two_digits(seconds / 3600) + ":"@ + rest
    }
}

/// The names of artists.
pub open spec fn artist_names(artists: Seq<ArtistView>) -> Seq<Seq<char>> {
    artists.map_values(|artist: ArtistView| artist.name)
}

/// Who sings a song: the names of the artists with a slash between each two, or that they are
/// unknown.
pub open spec fn singer_text(artists: Seq<ArtistView>) -> Seq<char> {
    if artists.len() == 0 {
        "未知歌手"@
    } else {
        joined(artist_names(artists), "/"@)
    }
}

/// The length of a song as lists show it.
pub fn clock(milliseconds: u32) -> (text: String)
    ensures
        text@ == clock_text(milliseconds as nat),
{
    let seconds: u64 = milliseconds as u64 / 1000;
    let minutes: u64 = seconds / 60;
    let hours: u64 = minutes / 60;
    assert(hours == seconds / 3600);
    let mut text = String::new();
    if hours != 0 {
        text.append(two_digits_text(hours).as_str());
        text.append(":");
    }
    text.append(two_digits_text(minutes % 60).as_str());
    text.append(":");
    text.append(two_digits_text(seconds % 60).as_str());
    assert(text@ =~= clock_text(milliseconds as nat));
    text
}

fn singer(artists: &Vec<ArtistInTrack>) -> (text: String)
    ensures
        text@ == singer_text(artist_views(artists@)),
{
    if artists.len() == 0 {
        return "未知歌手".to_string();
    }
    let mut names: Vec<String> = Vec::new();
    let mut i: usize = 0;
    while i < artists.len()
        invariant
            i <= artists.len(),
            names@.len() == i,
            forall|j: int| 0 <= j < i ==> (#[trigger] names@[j])@ == artists@[j].name@,
        decreases artists.len() - i,
    {
        names.push(artists[i].name.clone());
        i += 1;
    }
    assert(texts(names@) =~= artist_names(artist_views(artists@)));
    join_texts(&names, "/")
}

/// The row of a song. Nothing is selected yet; whether the song is liked is looked up.
pub fn to_track_detail_detail(loved_ids: &HashSet<u64>, track_detail: &TrackDetail) -> (song:
    SongDetail)
    ensures
        !song.selected,
        song.album@ == track_detail.album.name@,
        song.duration@ == clock_text(track_detail.duration as nat),
        joined_halves(song.id_1, song.id_2) == track_detail.id,
        joined_halves(song.album_id_1, song.album_id_2) == track_detail.album.id,
        song.name@ == track_detail.name@,
        song.pic_url@ == track_detail.album.pic_url@,
        song.singer@ == singer_text(track_detail@.artist),
        song.loved == loved_ids@.contains(track_detail.id),
{
    broadcast use vstd::std_specs::hash::group_hash_axioms;

    let (album_id_1, album_id_2) = u64_to_i32x2(track_detail.album.id);
    let (id_1, id_2) = u64_to_i32x2(track_detail.id);
    SongDetail {
        selected: false,
        album: track_detail.album.name.clone(),
        duration: clock(track_detail.duration),
        id_1,
        id_2,
        album_id_1,
        album_id_2,
        name: track_detail.name.clone(),
        pic_url: track_detail.album.pic_url.clone(),
        singer: singer(&track_detail.artist),
        loved: loved_ids.contains(&track_detail.id),
    }
}

/// A length of less than an hour is shown as minutes and seconds, two digits each, with a colon
/// between them; hours stand before that with a colon of their own where there are any. Parts of
/// a second do not count.
pub proof fn lemma_clock_shows_the_time(milliseconds: nat)
    ensures
        ({
            let text = clock_text(milliseconds);
            let seconds = milliseconds / 1000;
            let end = text.len() as int;
            &&& seconds < 3600 ==> end == 5
            &&& end >= 5
            &&& digits_value(text.subrange(end - 5, end - 3)) == (seconds / 60) % 60
            &&& text[end - 3] == ':'
            &&& digits_value(text.skip(end - 2)) == seconds % 60
            &&& seconds >= 3600 ==> end >= 8 && text[end - 6] == ':' && digits_value(
                text.take(end - 6),
            ) == seconds / 3600
        }),
{
    let text = clock_text(milliseconds);
    let seconds = milliseconds / 1000;
    let end = text.len() as int;
    let minutes = two_digits((seconds / 60) % 60);
    let rest = two_digits(seconds % 60);
    reveal_strlit(":");
    lemma_two_digits_are_written((seconds / 60) % 60);
    lemma_two_digits_are_written(seconds % 60);
    lemma_two_digits_are_written(seconds / 3600);
    assert(text.subrange(end - 5, end - 3) =~= minutes);
    assert(text.skip(end - 2) =~= rest);
    if seconds >= 3600 {
        assert(text.take(end - 6) =~= two_digits(seconds / 3600));
    }
}

/// Who sings a song: one name as it is, several with a slash between each two in the order of the
/// artists, and without any that they are unknown.
pub proof fn lemma_singers_are_named(artists: Seq<ArtistView>, last: ArtistView)
    ensures
        singer_text(Seq::empty()) == "未知歌手"@,
        singer_text(seq![last]) == last.name,
        artists.len() > 0 ==> singer_text(artists.push(last)) == singer_text(artists) + "/"@
            + last.name,
{
    assert(artist_names(seq![last]) =~= seq![last.name]);
    assert(artist_names(artists.push(last)) =~= artist_names(artists).push(last.name));
    lemma_joining_separates_the_parts(artist_names(artists), last.name, "/"@);
}

} // verus!
