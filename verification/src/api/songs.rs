//! Finding the files of songs, and deciding which songs have to be downloaded.
use std::collections::HashMap;

use vstd::prelude::*;

use crate::api::download::audio_extension;
use crate::api::images::{file_name, join_name, temp_name};
use crate::api::{ApiError, MusicQuality, NcmApi};
use crate::model::TrackUrl;
use crate::text::{append_decimal, decimal, lemma_decimal_round_trip, lemma_digits_end};

verus! {

/// How many kinds of sound files are looked for.
pub const AUDIO_EXTENSION_COUNT: usize = 6;

/// The kinds of sound files, in the order in which they are looked for.
pub open spec fn extension_at(index: int) -> Seq<char> {
    if index == 0 {
        "mp3"@
    } else if index == 1 {
        "flac"@
    } else if index == 2 {
        "wav"@
    } else if index == 3 {
        "ogg"@
    } else if index == 4 {
        "m4a"@
    } else {
        "aac"@
    }
}

/// A step of looking for the file of a song.
#[derive(Clone, Copy, Debug, PartialEq, Eq, Structural)]
pub enum SearchStep {
    /// Look whether the file of the kind with this number is there.
    Probe(usize),
    /// Remove what an interrupted download of this kind has left behind, if anything.
    Discard(usize),
    /// The file of this kind is the result.
    Found(usize),
    /// There is no file.
    Missing,
}

impl SearchStep {
    /// Whether this is a step of some search.
    pub open spec fn well_formed(self) -> bool {
        match self {
            SearchStep::Probe(index) => index < AUDIO_EXTENSION_COUNT,
            SearchStep::Discard(index) => index < AUDIO_EXTENSION_COUNT,
            SearchStep::Found(index) => index < AUDIO_EXTENSION_COUNT,
            SearchStep::Missing => true,
        }
    }

    /// How many steps are left at most.
    pub open spec fn rank(self) -> nat {
        match self {
            SearchStep::Probe(index) => (2 * (AUDIO_EXTENSION_COUNT - index) + 2) as nat,
            SearchStep::Discard(index) => (2 * (AUDIO_EXTENSION_COUNT - index) + 1) as nat,
            SearchStep::Found(_) => 0,
            SearchStep::Missing => 0,
        }
    }

    /// The first step.
    pub fn first() -> (step: SearchStep)
        ensures
            step == SearchStep::Probe(0),
    {
        SearchStep::Probe(0)
    }

    /// The step that follows this one; `exists` is the answer to what `Probe` asks.
    pub fn after(self, exists: bool) -> (next: SearchStep)
        requires
            self.well_formed(),
        ensures
            next == search_step_after(self, exists),
            next.well_formed(),
    {
        match self {
            SearchStep::Probe(index) => {
                if exists {
                    SearchStep::Found(index)
                } else {
                    SearchStep::Discard(index)
                }
            },
            SearchStep::Discard(index) => {
                if index + 1 < AUDIO_EXTENSION_COUNT {
                    SearchStep::Probe(index + 1)
                } else {
                    SearchStep::Missing
                }
            },
            SearchStep::Found(index) => SearchStep::Found(index),
            SearchStep::Missing => SearchStep::Missing,
        }
    }
}

/// What follows a step of a search.
pub open spec fn search_step_after(step: SearchStep, exists: bool) -> SearchStep {
    match step {
        SearchStep::Probe(index) => if exists {
            SearchStep::Found(index)
        } else {
            SearchStep::Discard(index)
        },
        SearchStep::Discard(index) => if index + 1 < AUDIO_EXTENSION_COUNT {
            SearchStep::Probe((index + 1) as usize)
        } else {
            SearchStep::Missing
        },
        SearchStep::Found(index) => SearchStep::Found(index),
        SearchStep::Missing => SearchStep::Missing,
    }
}

/// How a search ends, from a step on, where `is_there` says which files are there.
pub open spec fn search_end(is_there: spec_fn(int) -> bool, step: SearchStep) -> SearchStep
    decreases step.rank(),
    when step.well_formed()
{
    match step {
        SearchStep::Probe(index) => search_end(
            is_there,
            search_step_after(step, is_there(index as int)),
        ),
        SearchStep::Discard(_) => search_end(is_there, search_step_after(step, false)),
        SearchStep::Found(index) => SearchStep::Found(index),
        SearchStep::Missing => SearchStep::Missing,
    }
}

/// The stem of the files of a song: the song and the quality.
pub open spec fn song_stem(id: u64, quality: MusicQuality) -> Seq<char> {
    decimal(id as nat) + "_"@ + quality.tag()
}

/// Why a song without a known address has no file.
pub open spec fn url_not_found(id: u64) -> Seq<char> {
    "track url not found for id "@ + decimal(id as nat)
}

/// Why a song without an address has no file.
pub open spec fn url_is_empty(id: u64) -> Seq<char> {
    "song url is empty for id "@ + decimal(id as nat)
}

fn stem_text(id: u64, quality: MusicQuality) -> (stem: String)
    ensures
        stem@ == song_stem(id, quality),
{
    let mut stem = String::new();
    append_decimal(&mut stem, id);
    stem.append("_");
    stem.append(quality.to_str());
    assert(stem@ =~= song_stem(id, quality));
    stem
}

fn message_with_id(start: &str, id: u64) -> (message: String)
    ensures
        message@ == start@ + decimal(id as nat),
{
    let mut message = start.to_string();
    append_decimal(&mut message, id);
    message
}

impl NcmApi {
    /// The name of the file of a song, if it is of the kind with this number.
    pub fn song_candidate(id: u64, quality: MusicQuality, index: usize) -> (name: String)
        requires
            index < AUDIO_EXTENSION_COUNT,
        ensures
            name@ == file_name(song_stem(id, quality), extension_at(index as int)),
    {
        let extension: &str = match index {
            0 => "mp3",
            1 => "flac",
            2 => "wav",
            3 => "ogg",
            4 => "m4a",
            _ => "aac",
        };
        join_name(stem_text(id, quality).as_str(), extension)
    }

    /// The name of the file that a downloaded song is kept in.
    pub fn song_file_name(id: u64, quality: MusicQuality, bytes: &[u8]) -> (name: Result<
        String,
        ApiError,
    >)
        ensures
            match name {
                Ok(name) => {
                    &&& audio_extension(bytes@) is Some
                    &&& name@ == file_name(song_stem(id, quality), audio_extension(bytes@)->0)
                },
                Err(error) => audio_extension(bytes@) is None && error
                    == ApiError::UnsupportedAudio,
            },
    {
        match NcmApi::detect_audio_extension(bytes) {
            Ok(extension) => Ok(join_name(stem_text(id, quality).as_str(), extension)),
            Err(error) => Err(error),
        }
    }

    /// Where a song is downloaded from.
    pub fn download_song_to_file(id: u64, track: &TrackUrl) -> (url: Result<String, String>)
        ensures
            match url {
                Ok(url) => track.url is Some && url@ == track.url->0@,
                Err(message) => track.url is None && message@ == url_is_empty(id),
            },
    {
        match &track.url {
            Some(url) => Ok(url.clone()),
            None => Err(message_with_id("song url is empty for id ", id)),
        }
    }
}

/// What came of a song: the path of its file, or why there is none.
pub open spec fn outcome_text(outcome: Result<String, String>) -> Result<Seq<char>, Seq<char>> {
    match outcome {
        Ok(path) => Ok(path@),
        Err(message) => Err(message@),
    }
}

/// Songs whose files are wanted, while it is found out which of them have to be downloaded.
pub struct SongBatch {
    urls: HashMap<u64, TrackUrl>,
    local_files: HashMap<u64, Result<String, String>>,
    pending_downloads: Vec<(u64, TrackUrl)>,
}

/// A batch as contracts speak of it.
#[verifier::ext_equal]
pub struct SongBatchView {
    /// Where songs can be downloaded from.
    pub urls: Map<u64, TrackUrl>,
    /// What came of songs so far.
    pub local: Map<u64, Result<Seq<char>, Seq<char>>>,
    /// The songs to download.
    pub pending: Seq<(u64, TrackUrl)>,
}

impl View for SongBatch {
    type V = SongBatchView;

    closed spec fn view(&self) -> SongBatchView {
        SongBatchView {
            urls: self.urls@,
            local: self.local_files@.map_values(
                |outcome: Result<String, String>| outcome_text(outcome),
            ),
            pending: self.pending_downloads@,
        }
    }
}

impl SongBatchView {
    /// The batch once something came of a song.
    pub open spec fn with_outcome(
        self,
        id: u64,
        outcome: Result<Seq<char>, Seq<char>>,
    ) -> SongBatchView {
        SongBatchView { local: self.local.insert(id, outcome), ..self }
    }

    /// The batch once it is known whether there is a file of a song. A song without a file is
    /// downloaded, if there is an address left for it.
    pub open spec fn searched(self, id: u64, path: Option<Seq<char>>) -> SongBatchView {
        match path {
            Some(path) => self.with_outcome(id, Ok(path)),
            None => if self.urls.contains_key(id) {
                SongBatchView {
                    urls: self.urls.remove(id),
                    pending: self.pending.push((id, self.urls[id])),
                    ..self
                }
            } else {
                self.with_outcome(id, Err(url_not_found(id)))
            },
        }
    }

    /// Whether something came of a song or it is to be downloaded.
    pub open spec fn is_settled(self, id: u64) -> bool {
        self.local.contains_key(id) || self.is_pending(id)
    }

    pub open spec fn is_pending(self, id: u64) -> bool {
        exists|i: int| 0 <= i < self.pending.len() && (#[trigger] self.pending[i]).0 == id
    }

    /// The batch once it is known which of the songs have files.
    pub open spec fn all_searched(
        self,
        ids: Seq<u64>,
        paths: Seq<Option<Seq<char>>>,
    ) -> SongBatchView
        decreases ids.len(),
    {
        if ids.len() == 0 {
            self
        } else {
            self.all_searched(ids.drop_last(), paths.drop_last()).searched(ids.last(), paths.last())
        }
    }

    /// The batch once downloads have ended, one after the other.
    pub open spec fn all_downloaded(
        self,
        outcomes: Seq<(u64, Result<Seq<char>, Seq<char>>)>,
    ) -> SongBatchView
        decreases outcomes.len(),
    {
        if outcomes.len() == 0 {
            self
        } else {
            self.all_downloaded(outcomes.drop_last()).with_outcome(
                outcomes.last().0,
                outcomes.last().1,
            )
        }
    }
}

impl SongBatch {
    /// A batch of songs that can be downloaded from `urls`.
    pub fn new(urls: HashMap<u64, TrackUrl>) -> (batch: SongBatch)
        ensures
            batch@ == (SongBatchView { urls: urls@, local: Map::empty(), pending: Seq::empty() }),
    {
        broadcast use vstd::std_specs::hash::group_hash_axioms;

        let batch = SongBatch { urls, local_files: HashMap::new(), pending_downloads: Vec::new() };
        assert(batch@ =~= (SongBatchView {
            urls: urls@,
            local: Map::empty(),
            pending: Seq::empty(),
        }));
        batch
    }

    fn note(&mut self, id: u64, outcome: Result<String, String>)
        ensures
            final(self)@ == old(self)@.with_outcome(id, outcome_text(outcome)),
    {
        broadcast use vstd::std_specs::hash::group_hash_axioms;

        self.local_files.insert(id, outcome);
        assert(self@.local =~= old(self)@.local.insert(id, outcome_text(outcome)));
    }

    /// Notes whether there is a file of a song.
    pub fn searched(&mut self, id: u64, path: Option<String>)
        ensures
            final(self)@ == old(self)@.searched(id, crate::json::optional_text(path)),
    {
        broadcast use vstd::std_specs::hash::group_hash_axioms;

        match path {
            Some(path) => self.note(id, Ok(path)),
            None => match self.urls.remove(&id) {
                Some(track) => {
                    self.pending_downloads.push((id, track));
                    assert(self@.urls =~= old(self)@.urls.remove(id));
                },
                None => {
                    assert(self@ =~= old(self)@);
                    self.note(id, Err(message_with_id("track url not found for id ", id)));
                },
            },
        }
    }

    /// Hands out the songs to download, in the order in which they were asked for.
    pub fn take_pending(&mut self) -> (pending: Vec<(u64, TrackUrl)>)
        ensures
            pending@ == old(self)@.pending,
            final(self)@ == (SongBatchView { pending: Seq::empty(), ..old(self)@ }),
    {
        let mut pending: Vec<(u64, TrackUrl)> = Vec::new();
        std::mem::swap(&mut pending, &mut self.pending_downloads);
        pending
    }

    /// Notes how the download of a song ended.
    pub fn download_finished(&mut self, id: u64, outcome: Result<String, String>)
        ensures
            final(self)@ == old(self)@.with_outcome(id, outcome_text(outcome)),
    {
        self.note(id, outcome);
    }

    /// What came of the songs.
    pub fn into_local_files(self) -> (files: HashMap<u64, Result<String, String>>)
        ensures
            files@.map_values(|outcome: Result<String, String>| outcome_text(outcome))
                == self@.local,
    {
        self.local_files
    }
}

/// A search finds the file of the first kind that is there, and comes to nothing only if there
/// is none.
pub proof fn lemma_search_finds_the_first(is_there: spec_fn(int) -> bool)
    ensures
        ({
            let end = search_end(is_there, SearchStep::Probe(0));
            match end {
                SearchStep::Found(index) => {
                    &&& index < AUDIO_EXTENSION_COUNT
                    &&& is_there(index as int)
                    &&& forall|i: int| 0 <= i < index ==> !#[trigger] is_there(i)
                },
                SearchStep::Missing => forall|i: int|
                    0 <= i < AUDIO_EXTENSION_COUNT ==> !#[trigger] is_there(i),
                _ => false,
            }
        }),
{
    lemma_search_from(is_there, 0);
}

proof fn lemma_search_from(is_there: spec_fn(int) -> bool, start: usize)
    requires
        start < AUDIO_EXTENSION_COUNT,
    ensures
        match search_end(is_there, SearchStep::Probe(start)) {
            SearchStep::Found(index) => {
                &&& start <= index < AUDIO_EXTENSION_COUNT
                &&& is_there(index as int)
                &&& forall|i: int| start <= i < index ==> !#[trigger] is_there(i)
            },
            SearchStep::Missing => forall|i: int|
                start <= i < AUDIO_EXTENSION_COUNT ==> !#[trigger] is_there(i),
            _ => false,
        },
    decreases AUDIO_EXTENSION_COUNT - start,
{
    reveal_with_fuel(search_end, 3);
    if !is_there(start as int) && start + 1 < AUDIO_EXTENSION_COUNT {
        lemma_search_from(is_there, (start + 1) as usize);
    }
}

/// Every song that was asked for is settled once the search is over: it has a file, a reason
/// why it has none, or a download to come.
pub proof fn lemma_every_song_is_settled(
    batch: SongBatchView,
    ids: Seq<u64>,
    paths: Seq<Option<Seq<char>>>,
    id: u64,
)
    requires
        ids.len() == paths.len(),
        ids.contains(id) || batch.is_settled(id),
    ensures
        batch.all_searched(ids, paths).is_settled(id),
    decreases ids.len(),
{
    if ids.len() > 0 {
        let before = batch.all_searched(ids.drop_last(), paths.drop_last());
        let after = before.searched(ids.last(), paths.last());
        if id == ids.last() {
            if !after.local.contains_key(id) {
                assert(after.pending.last().0 == id);
            }
        } else {
            if ids.contains(id) {
                let i = choose|i: int| 0 <= i < ids.len() && ids[i] == id;
                assert(ids.drop_last()[i] == id);
            }
            lemma_every_song_is_settled(batch, ids.drop_last(), paths.drop_last(), id);
            if before.is_pending(id) {
                let i = choose|i: int|
                    0 <= i < before.pending.len() && (#[trigger] before.pending[i]).0 == id;
                assert(after.pending[i].0 == id);
            }
        }
    }
}

/// Once every download that was to come has ended, something came of every settled song. What
/// came of a song last counts.
pub proof fn lemma_every_song_gets_an_outcome(
    batch: SongBatchView,
    outcomes: Seq<(u64, Result<Seq<char>, Seq<char>>)>,
    id: u64,
)
    requires
        batch.is_settled(id),
        forall|i: int|
            0 <= i < batch.pending.len() ==> has_outcome(
                outcomes,
                (#[trigger] batch.pending[i]).0,
            ),
    ensures
        batch.all_downloaded(outcomes).local.contains_key(id),
        outcomes.len() > 0 && outcomes.last().0 == id ==> batch.all_downloaded(outcomes).local[id]
            == outcomes.last().1,
{
    if batch.local.contains_key(id) {
        lemma_outcomes_stay(batch, outcomes, id);
    } else {
        let i = choose|i: int| 0 <= i < batch.pending.len() && (#[trigger] batch.pending[i]).0 == id;
        assert(has_outcome(outcomes, batch.pending[i].0));
        lemma_outcomes_stay(batch, outcomes, id);
    }
}

/// Whether a download of a song has ended.
pub open spec fn has_outcome(
    outcomes: Seq<(u64, Result<Seq<char>, Seq<char>>)>,
    id: u64,
) -> bool {
    exists|i: int| 0 <= i < outcomes.len() && (#[trigger] outcomes[i]).0 == id
}

proof fn lemma_outcomes_stay(
    batch: SongBatchView,
    outcomes: Seq<(u64, Result<Seq<char>, Seq<char>>)>,
    id: u64,
)
    requires
        batch.local.contains_key(id) || has_outcome(outcomes, id),
    ensures
        batch.all_downloaded(outcomes).local.contains_key(id),
    decreases outcomes.len(),
{
    if outcomes.len() > 0 && outcomes.last().0 != id {
        if has_outcome(outcomes, id) {
            let i = choose|i: int| 0 <= i < outcomes.len() && (#[trigger] outcomes[i]).0 == id;
            assert(outcomes.drop_last()[i].0 == id);
        }
        lemma_outcomes_stay(batch, outcomes.drop_last(), id);
    }
}

/// Songs are kept in different files, unless they are the same in the same quality.
pub proof fn lemma_song_stems_differ(
    id: u64,
    quality: MusicQuality,
    other_id: u64,
    other_quality: MusicQuality,
)
    requires
        song_stem(id, quality) == song_stem(other_id, other_quality),
    ensures
        id == other_id,
        quality == other_quality,
{
    reveal_strlit("_");
    let a = decimal(id as nat);
    let b = decimal(other_id as nat);
    let a_rest = "_"@ + quality.tag();
    let b_rest = "_"@ + other_quality.tag();
    lemma_decimal_round_trip(id as nat);
    lemma_decimal_round_trip(other_id as nat);
    assert(a + a_rest =~= song_stem(id, quality));
    assert(b + b_rest =~= song_stem(other_id, other_quality));
    lemma_digits_end(a, a_rest, b, b_rest);
    assert(quality.tag() =~= a_rest.skip(1));
    assert(other_quality.tag() =~= b_rest.skip(1));
    lemma_tags_differ(quality, other_quality);
}

/// Different qualities have different names.
pub proof fn lemma_tags_differ(quality: MusicQuality, other: MusicQuality)
    requires
        quality.tag() == other.tag(),
    ensures
        quality == other,
{
    reveal_strlit("standard");
    reveal_strlit("higher");
    reveal_strlit("exhigh");
    reveal_strlit("lossless");
    reveal_strlit("hires");
    reveal_strlit("jyeffect");
    reveal_strlit("sky");
    reveal_strlit("dolby");
    reveal_strlit("jymaster");
    let mark = |tag: Seq<char>| (tag.len(), tag[0], tag[2]);
    assert(mark(MusicQuality::Standard.tag()) == (8nat, 's', 'a'));
    assert(mark(MusicQuality::Higher.tag()) == (6nat, 'h', 'g'));
    assert(mark(MusicQuality::ExHigh.tag()) == (6nat, 'e', 'h'));
    assert(mark(MusicQuality::Lossless.tag()) == (8nat, 'l', 's'));
    assert(mark(MusicQuality::HiRes.tag()) == (5nat, 'h', 'r'));
    assert(mark(MusicQuality::JyEffect.tag()) == (8nat, 'j', 'e'));
    assert(mark(MusicQuality::Sky.tag()) == (3nat, 's', 'y'));
    assert(mark(MusicQuality::Dolby.tag()) == (5nat, 'd', 'l'));
    assert(mark(MusicQuality::JyMaster.tag()) == (8nat, 'j', 'm'));
    assert(mark(quality.tag()) == mark(other.tag()));
}

/// An unfinished download never has the name of a finished one.
pub proof fn lemma_temp_names_differ(stem: Seq<char>, index: int, other: int)
    requires
        0 <= index < AUDIO_EXTENSION_COUNT,
        0 <= other < AUDIO_EXTENSION_COUNT,
    ensures
        temp_name(file_name(stem, extension_at(index))) != file_name(stem, extension_at(other)),
{
    reveal_strlit(".downloading");
    reveal_strlit("mp3");
    reveal_strlit("flac");
    reveal_strlit("wav");
    reveal_strlit("ogg");
    reveal_strlit("m4a");
    reveal_strlit("aac");
    let name = file_name(stem, extension_at(index));
    assert(temp_name(name).len() == name.len() + 12);
    assert(name.len() + 1 >= file_name(stem, extension_at(other)).len());
}

/// A song is kept under its identifier and the quality, with the extension of its kind: the kinds
/// are looked for in the order `mp3`, `flac`, `wav`, `ogg`, `m4a`, `aac`.
pub proof fn lemma_names_of_song_files(id: u64, quality: MusicQuality)
    ensures
        song_stem(id, quality) == decimal(id as nat) + "_"@ + quality.tag(),
        file_name(song_stem(id, quality), extension_at(0)) == song_stem(id, quality) + ".mp3"@,
        extension_at(1) == "flac"@,
        extension_at(2) == "wav"@,
        extension_at(3) == "ogg"@,
        extension_at(4) == "m4a"@,
        extension_at(5) == "aac"@,
{
    reveal_strlit(".");
    reveal_strlit("mp3");
    reveal_strlit(".mp3");
    assert(file_name(song_stem(id, quality), extension_at(0)) =~= song_stem(id, quality)
        + ".mp3"@);
}

/// The names of the qualities.
pub proof fn lemma_names_of_qualities()
    ensures
        MusicQuality::Standard.tag() == "standard"@,
        MusicQuality::Higher.tag() == "higher"@,
        MusicQuality::ExHigh.tag() == "exhigh"@,
        MusicQuality::Lossless.tag() == "lossless"@,
        MusicQuality::HiRes.tag() == "hires"@,
        MusicQuality::JyEffect.tag() == "jyeffect"@,
        MusicQuality::Sky.tag() == "sky"@,
        MusicQuality::Dolby.tag() == "dolby"@,
        MusicQuality::JyMaster.tag() == "jymaster"@,
{
}

/// What becomes of a song that was looked for. A file that is there is the outcome and nothing is
/// downloaded; without one the song is downloaded from its address, which is then used up; and
/// without an address the outcome says so. Other songs are not touched.
pub proof fn lemma_what_becomes_of_a_song(
    batch: SongBatchView,
    id: u64,
    path: Option<Seq<char>>,
    other: u64,
)
    ensures
        path matches Some(path) ==> {
            &&& batch.searched(id, Some(path)).local.contains_key(id)
            &&& batch.searched(id, Some(path)).local[id] == Ok::<Seq<char>, Seq<char>>(path)
            &&& batch.searched(id, Some(path)).pending == batch.pending
            &&& batch.searched(id, Some(path)).urls == batch.urls
        },
        path is None && batch.urls.contains_key(id) ==> {
            &&& batch.searched(id, path).pending == batch.pending.push((id, batch.urls[id]))
            &&& batch.searched(id, path).local == batch.local
            &&& !batch.searched(id, path).urls.contains_key(id)
        },
        path is None && !batch.urls.contains_key(id) ==> {
            &&& batch.searched(id, path).pending == batch.pending
            &&& batch.searched(id, path).local.contains_key(id)
            &&& batch.searched(id, path).local[id] == Err::<Seq<char>, Seq<char>>(
                "track url not found for id "@ + decimal(id as nat),
            )
        },
        other != id ==> {
            &&& batch.searched(id, path).local.contains_key(other) <==> batch.local.contains_key(
                other,
            )
            &&& batch.local.contains_key(other) ==> batch.searched(id, path).local[other]
                == batch.local[other]
            &&& batch.searched(id, path).urls.contains_key(other) <==> batch.urls.contains_key(
                other,
            )
        },
{
}

/// What came of a download is the outcome of its song, in place of any other; nothing else
/// changes.
pub proof fn lemma_outcome_of_a_download(
    batch: SongBatchView,
    id: u64,
    outcome: Result<Seq<char>, Seq<char>>,
    other: u64,
)
    ensures
        batch.with_outcome(id, outcome).local.contains_key(id),
        batch.with_outcome(id, outcome).local[id] == outcome,
        batch.with_outcome(id, outcome).urls == batch.urls,
        batch.with_outcome(id, outcome).pending == batch.pending,
        other != id && batch.local.contains_key(other) ==> batch.with_outcome(
            id,
            outcome,
        ).local[other] == batch.local[other],
        url_is_empty(id) == "song url is empty for id "@ + decimal(id as nat),
{
}

/// A search goes on from kind to kind, and what an interrupted download left behind is removed
/// before the next kind is looked for.
pub proof fn lemma_search_goes_on(index: usize)
    requires
        index < 6,
    ensures
        search_step_after(SearchStep::Probe(index), true) == SearchStep::Found(index),
        search_step_after(SearchStep::Probe(index), false) == SearchStep::Discard(index),
        index < 5 ==> search_step_after(SearchStep::Discard(index), false) == SearchStep::Probe(
            (index + 1) as usize,
        ),
        index == 5 ==> search_step_after(SearchStep::Discard(index), false) == SearchStep::Missing,
{
}

} // verus!
