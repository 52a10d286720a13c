//! What the application knows while it runs: who is logged in, which songs they like, what is
//! being played, and the songs and playlists that were asked for lately.
use std::collections::{HashMap, HashSet};

use vstd::prelude::*;

use crate::api::images::{file_name, inflight_key, sized_url, ImageRequest};
use crate::api::NcmApi;
use crate::cache::Caches;
use crate::config::Config;
use crate::model::{track_views, Account, PlaylistDetail, PlaylistView, TrackDetail, TrackView};
use crate::player::persist::fresh_player;
use crate::player::{PlayerCore, PlayerPersistState};
use crate::text::{append_decimal, decimal, lemma_decimal_round_trip, lemma_digits_end};

verus! {

/// The state of the application.
pub struct AppLib {
    pub client: NcmApi,
    pub config: Config,
    pub login_user: Option<Account>,
    pub loved_ids: HashSet<u64>,
    pub player_core: PlayerCore,
    pub caches: Caches,
}

/// The songs by their identifiers. The last of several with one identifier counts.
pub open spec fn tracks_by_id(tracks: Seq<TrackView>) -> Map<u64, TrackView>
    decreases tracks.len(),
{
    if tracks.len() == 0 {
        Map::empty()
    } else {
        tracks_by_id(tracks.drop_last()).insert(tracks.last().id, tracks.last())
    }
}

/// Gathering songs: what was gathered so far, which of the fetched songs are left, and what the
/// cache was given.
#[verifier::ext_equal]
pub struct Gathered {
    pub tracks: Seq<TrackView>,
    pub fetched: Map<u64, TrackView>,
    pub recorded: Map<u64, TrackView>,
    /// How many songs the cache keeps for certain.
    pub capacity: u64,
}

impl Gathered {
    /// One more song: what the cache found, or else the fetched one, which the cache is then
    /// given. A song that neither has is passed over.
    pub open spec fn one_more(self, id: u64, found: Option<TrackView>) -> Gathered {
        match found {
            Some(track) => Gathered { tracks: self.tracks.push(track), ..self },
            None => if self.fetched.contains_key(id) {
                Gathered {
                    tracks: self.tracks.push(self.fetched[id]),
                    fetched: self.fetched.remove(id),
                    recorded: self.recorded.insert(id, self.fetched[id]),
                    ..self
                }
            } else {
                self
            },
        }
    }

    /// All songs, one after the other.
    pub open spec fn all(self, ids: Seq<u64>, found: Seq<Option<TrackView>>) -> Gathered
        decreases ids.len(),
    {
        if ids.len() == 0 {
            self
        } else {
            self.all(ids.drop_last(), found.drop_last()).one_more(ids.last(), found.last())
        }
    }

    /// Whether each song that the cache found is what it was last given, and each song that it
    /// was given is found unless it was given more than it keeps.
    pub open spec fn may_find(self, ids: Seq<u64>, found: Seq<Option<TrackView>>) -> bool
        decreases ids.len(),
    {
        if ids.len() == 0 {
            true
        } else {
            let before = self.all(ids.drop_last(), found.drop_last());
            &&& self.may_find(ids.drop_last(), found.drop_last())
            &&& found.last() is Some ==> before.recorded.contains_key(ids.last())
                && before.recorded[ids.last()] == found.last()->0
            &&& before.recorded.contains_key(ids.last()) && before.recorded.dom().len()
                <= before.capacity ==> found.last() is Some
        }
    }

    /// Before the first song.
    pub open spec fn start(
        fetched: Seq<TrackView>,
        recorded: Map<u64, TrackView>,
        capacity: u64,
    ) -> Gathered {
        Gathered { tracks: Seq::empty(), fetched: tracks_by_id(fetched), recorded, capacity }
    }

    /// Whether these songs are gathered if the cache finds `found`, and the cache was given what
    /// `recorded` says.
    pub open spec fn gives(
        self,
        ids: Seq<u64>,
        found: Seq<Option<TrackView>>,
        tracks: Seq<TrackView>,
        recorded: Map<u64, TrackView>,
    ) -> bool {
        &&& found.len() == ids.len()
        &&& self.may_find(ids, found)
        &&& tracks == self.all(ids, found).tracks
        &&& recorded == self.all(ids, found).recorded
    }

    /// Whether every song stands under its own identifier.
    pub open spec fn is_keyed(self) -> bool {
        &&& forall|id: u64| #[trigger] self.fetched.contains_key(id) ==> self.fetched[id].id == id
        &&& forall|id: u64| #[trigger] self.recorded.contains_key(id) ==> self.recorded[id].id == id
    }
}

/// The identifiers without those that are marked.
pub open spec fn unmarked(ids: Seq<u64>, marks: Seq<bool>) -> Seq<u64>
    decreases ids.len(),
{
    if ids.len() == 0 {
        Seq::empty()
    } else if marks.last() {
        unmarked(ids.drop_last(), marks.drop_last())
    } else {
        unmarked(ids.drop_last(), marks.drop_last()).push(ids.last())
    }
}

/// The stem of the file that an image is kept in: what it shows, whose it is and how wide.
pub open spec fn image_stem(what: Seq<char>, id: u64, width: u16) -> Seq<char> {
    what + decimal(id as nat) + "_"@ + decimal(width as nat)
}

/// Whether an image is wanted as a square of this width, in the file with this stem.
pub open spec fn wants_square(
    request: ImageRequest,
    stem: Seq<char>,
    url: Seq<char>,
    dir: Seq<char>,
    width: u16,
) -> bool {
    &&& request.key@ == inflight_key(dir, stem, width, width)
    &&& request.url@ == sized_url(url, width, width)
    &&& request.png@ == file_name(stem, "png"@)
    &&& request.jpg@ == file_name(stem, "jpg"@)
}

fn square_image(what: &str, id: u64, url: &str, dir: &str, width: u16) -> (request: ImageRequest)
    ensures
        wants_square(request, image_stem(what@, id, width), url@, dir@, width),
{
    let mut stem = what.to_string();
    append_decimal(&mut stem, id);
    stem.append("_");
    append_decimal(&mut stem, width as u64);
    NcmApi::get_image(stem.as_str(), url, dir, width, width)
}

impl AppLib {
    /// The songs that were asked for, by their identifiers.
    pub open spec fn known_tracks(self) -> Map<u64, TrackView> {
        self.caches.tracks()
    }

    /// The playlists that were asked for, by their identifiers.
    pub open spec fn known_playlists(self) -> Map<u64, PlaylistView> {
        self.caches.playlists()
    }

    /// Starts the application with the cookie that was kept, if there is one. `user` is who the
    /// service says is logged in, and `loved` what they like, each if it could be found out.
    pub fn new(
        cookie: Option<String>,
        user: Option<Account>,
        loved: Option<HashSet<u64>>,
        device_name: String,
        saved: Option<PlayerPersistState>,
    ) -> (app: AppLib)
        ensures
            app.client@ == (crate::api::NcmApiView {
                client_cookie: crate::model::text_or_empty(crate::json::optional_text(cookie)),
                cookie: crate::model::text_or_empty(crate::json::optional_text(cookie)),
                image_inflight: Set::empty(),
            }),
            app.config.is_default(),
            app.login_user == user,
            app.loved_ids@ == (if user is Some && loved is Some {
                loved->0@
            } else {
                Set::empty()
            }),
            app.player_core@ == (match saved {
                Some(saved) => fresh_player(
                    app.player_core@.runtime_config,
                    app.config.cache_dir,
                    device_name,
                ).restored(saved@),
                None => fresh_player(
                    app.player_core@.runtime_config,
                    app.config.cache_dir,
                    device_name,
                ),
            }),
            app.player_core@.runtime_config.is_derived_from(app.config),
            app.caches.track_capacity() == Config::TRACK_DETAIL_MEMERY_CACHE_CAPACITY,
            app.caches.playlist_capacity() == Config::PLAYLIST_MEMERY_CACHE_CAPACITY,
            app.known_tracks() == Map::<u64, TrackView>::empty(),
            app.known_playlists() == Map::<u64, PlaylistView>::empty(),
    {
        broadcast use vstd::std_specs::hash::group_hash_axioms;

        let config = Config::default();
        let cookie = match cookie {
            Some(cookie) => cookie,
            None => String::new(),
        };
        let client = NcmApi::new(cookie.as_str());
        let player_core = PlayerCore::new(&config, device_name, saved);
        let loved_ids = match (&user, loved) {
            (Some(_), Some(loved)) => loved,
            _ => HashSet::new(),
        };
        let app = AppLib {
            client,
            config,
            login_user: user,
            loved_ids,
            player_core,
            caches: Caches::new(),
        };
        app
    }

    /// Takes over who logged in. Without an account nothing changes; without a list of songs
    /// none are liked.
    pub fn init(&mut self, user: Option<Account>, loved: Option<HashSet<u64>>) -> (done: bool)
        ensures
            done == user is Some,
            !done ==> *final(self) == *old(self),
            done ==> {
                &&& final(self).login_user == user
                &&& final(self).loved_ids@ == (if loved is Some {
                    loved->0@
                } else {
                    Set::empty()
                })
                &&& final(self).client == old(self).client
                &&& final(self).config == old(self).config
                &&& final(self).player_core == old(self).player_core
                &&& final(self).caches == old(self).caches
            },
    {
        broadcast use vstd::std_specs::hash::group_hash_axioms;

        if user.is_none() {
            return false;
        }
        self.loved_ids = match loved {
            Some(loved) => loved,
            None => HashSet::new(),
        };
        self.login_user = user;
        true
    }

    /// Asks for the cover of an album.
    pub fn get_album_cover(id: u64, url: &str, dir: &str, width: u16) -> (request: ImageRequest)
        ensures
            wants_square(request, image_stem("Album_"@, id, width), url@, dir@, width),
    {
        square_image("Album_", id, url, dir, width)
    }

    /// Asks for the cover of a playlist.
    pub fn get_playlist_cover(id: u64, url: &str, dir: &str, width: u16) -> (request: ImageRequest)
        ensures
            wants_square(request, image_stem("Playlist_"@, id, width), url@, dir@, width),
    {
        square_image("Playlist_", id, url, dir, width)
    }

    /// Asks for the picture of a user.
    pub fn get_avatar(id: u64, url: &str, dir: &str, width: u16) -> (request: ImageRequest)
        ensures
            wants_square(request, image_stem("Avatar_"@, id, width), url@, dir@, width),
    {
        square_image("Avatar_", id, url, dir, width)
    }

    /// The songs that have to be fetched: those that the cache does not hold. What it holds was
    /// asked for before, and it holds all of that as long as it was not given more than it was
    /// made for.
    pub fn uncached_tracks(&self, ids: &Vec<u64>) -> (uncached: Vec<u64>)
        ensures
            exists|held: Seq<bool>|
                {
                    &&& held.len() == ids@.len()
                    &&& forall|i: int|
                        0 <= i < held.len() && #[trigger] held[i]
                            ==> self.known_tracks().contains_key(ids@[i])
                    &&& forall|i: int|
                        0 <= i < held.len() && self.caches.keeps_track(ids@[i])
                            ==> #[trigger] held[i]
                    &&& uncached@ == #[trigger] unmarked(ids@, held)
                },
    {
        let mut uncached: Vec<u64> = Vec::new();
        let ghost mut held: Seq<bool> = Seq::empty();
        let mut i: usize = 0;
        while i < ids.len()
            invariant
                i <= ids.len(),
                held.len() == i,
                forall|j: int|
                    0 <= j < i && #[trigger] held[j] ==> self.known_tracks().contains_key(ids@[j]),
                forall|j: int|
                    0 <= j < i && self.caches.keeps_track(ids@[j]) ==> #[trigger] held[j],
                uncached@ == unmarked(ids@.take(i as int), held),
            decreases ids.len() - i,
        {
            let is_held = self.caches.has_track(ids[i]);
            proof {
                let ghost more = held.push(is_held);
                assert(more.drop_last() =~= held);
                assert(ids@.take(i + 1).drop_last() =~= ids@.take(i as int));
                held = more;
            }
            if !is_held {
                uncached.push(ids[i]);
            }
            i += 1;
        }
        assert(ids@.take(i as int) =~= ids@);
        uncached
    }

    /// Gathers songs from the cache and from those that were fetched, in the order in which
    /// they are asked for. What comes from the fetched ones is put into the cache.
    pub fn get_tracks_cached(&mut self, ids: &Vec<u64>, fetched: Vec<TrackDetail>) -> (tracks: Vec<
        TrackDetail,
    >)
        ensures
            exists|found: Seq<Option<TrackView>>|
                #[trigger] Gathered::start(
                    track_views(fetched@),
                    old(self).known_tracks(),
                    old(self).caches.track_capacity(),
                ).gives(ids@, found, track_views(tracks@), final(self).known_tracks()),
            final(self).client == old(self).client,
            final(self).config == old(self).config,
            final(self).login_user == old(self).login_user,
            final(self).loved_ids == old(self).loved_ids,
            final(self).player_core == old(self).player_core,
            final(self).known_playlists() == old(self).known_playlists(),
            final(self).caches.track_capacity() == old(self).caches.track_capacity(),
            final(self).caches.playlist_capacity() == old(self).caches.playlist_capacity(),
    {
        broadcast use vstd::std_specs::hash::group_hash_axioms;

        let ghost start = Gathered::start(
            track_views(fetched@),
            self.known_tracks(),
            self.caches.track_capacity(),
        );
        let mut rest = by_id(fetched);
        let mut tracks: Vec<TrackDetail> = Vec::new();
        let ghost mut found: Seq<Option<TrackView>> = Seq::empty();
        let mut i: usize = 0;
        assert(track_views(tracks@) =~= Seq::empty());
        assert(ids@.take(0) =~= Seq::empty());
        while i < ids.len()
            invariant
                i <= ids.len(),
                found.len() == i,
                start.may_find(ids@.take(i as int), found),
                track_views(tracks@) == start.all(ids@.take(i as int), found).tracks,
                values_of(rest@) == start.all(ids@.take(i as int), found).fetched,
                self.known_tracks() == start.all(ids@.take(i as int), found).recorded,
                self.caches.track_capacity() == start.all(ids@.take(i as int), found).capacity,
                self.caches.track_capacity() == old(self).caches.track_capacity(),
                self.caches.playlist_capacity() == old(self).caches.playlist_capacity(),
                self.client == old(self).client,
                self.config == old(self).config,
                self.login_user == old(self).login_user,
                self.loved_ids == old(self).loved_ids,
                self.player_core == old(self).player_core,
                self.known_playlists() == old(self).known_playlists(),
            decreases ids.len() - i,
        {
            let id = ids[i];
            let ghost earlier = found;
            let ghost given = track_views(tracks@);
            assert(ids@.take(i + 1).drop_last() =~= ids@.take(i as int));
            match self.caches.track(id) {
                Some(track) => {
                    proof {
                        found = found.push(Some(track@));
                        assert(found.drop_last() =~= earlier);
                    }
                    tracks.push(track);
                    assert(track_views(tracks@) =~= given.push(track@));
                },
                None => {
                    proof {
                        found = found.push(None);
                        assert(found.drop_last() =~= earlier);
                    }
                    let ghost left = rest@;
                    if let Some(track) = rest.remove(&id) {
                        assert(values_of(rest@) =~= values_of(left).remove(id));
                        let copy = track.clone();
                        self.caches.add_track(id, copy);
                        tracks.push(track);
                        assert(track_views(tracks@) =~= given.push(track@));
                    } else {
                        assert(!values_of(left).contains_key(id));
                        assert(rest@ =~= left);
                    }
                },
            }
            i += 1;
        }
        proof {
            assert(ids@.take(i as int) =~= ids@);
            assert(start.gives(ids@, found, track_views(tracks@), self.known_tracks()));
        }
        tracks
    }

    /// Looks a playlist up. One that is found is the one that was last fetched, and one that was
    /// fetched is found as long as no more were fetched than the cache was made for.
    pub fn cached_playlist(&self, id: u64) -> (playlist: Option<PlaylistDetail>)
        ensures
            playlist is Some ==> self.known_playlists().contains_key(id)
                && self.known_playlists()[id] == playlist->0@,
            self.caches.keeps_playlist(id) ==> playlist is Some,
    {
        self.caches.playlist(id)
    }

    /// Takes over a playlist that was fetched because the cache did not have it.
    pub fn get_playlist_cached(&mut self, id: u64, fetched: Option<PlaylistDetail>) -> (playlist:
        Option<PlaylistDetail>)
        ensures
            playlist == fetched,
            final(self).known_playlists() == (match fetched {
                Some(fetched) => old(self).known_playlists().insert(id, fetched@),
                None => old(self).known_playlists(),
            }),
            final(self).client == old(self).client,
            final(self).config == old(self).config,
            final(self).login_user == old(self).login_user,
            final(self).loved_ids == old(self).loved_ids,
            final(self).player_core == old(self).player_core,
            final(self).known_tracks() == old(self).known_tracks(),
            final(self).caches.track_capacity() == old(self).caches.track_capacity(),
            final(self).caches.playlist_capacity() == old(self).caches.playlist_capacity(),
    {
        match fetched {
            Some(playlist) => {
                let copy = playlist.clone();
                self.caches.add_playlist(id, copy);
                Some(playlist)
            },
            None => None,
        }
    }
}

/// The values of a table, as contracts speak of them.
pub open spec fn values_of(table: Map<u64, TrackDetail>) -> Map<u64, TrackView> {
    table.map_values(|track: TrackDetail| track@)
}

fn by_id(tracks: Vec<TrackDetail>) -> (table: HashMap<u64, TrackDetail>)
    ensures
        values_of(table@) == tracks_by_id(track_views(tracks@)),
{
    broadcast use vstd::std_specs::hash::group_hash_axioms;

    let ghost all = tracks@;
    let mut rest = crate::api::reversed(tracks);
    let mut table: HashMap<u64, TrackDetail> = HashMap::new();
    let ghost mut done: int = 0;
    assert(track_views(all.take(0)) =~= Seq::empty());
    assert(values_of(table@) =~= Map::empty());
    while rest.len() > 0
        invariant
            0 <= done <= all.len(),
            rest@ == all.skip(done).reverse(),
            values_of(table@) == tracks_by_id(track_views(all.take(done))),
        decreases rest@.len(),
    {
        let ghost before = table@;
        let track = rest.pop().unwrap();
        proof {
            assert(track == all[done]);
            assert(rest@ =~= all.skip(done + 1).reverse());
            assert(track_views(all.take(done + 1)).drop_last() =~= track_views(all.take(done)));
            assert(track_views(all.take(done + 1)).last() == track@);
            done = done + 1;
        }
        table.insert(track.id, track);
        assert(values_of(table@) =~= values_of(before).insert(track.id, track@));
    }
    assert(all.take(done) =~= all);
    table
}

/// Songs that were fetched stand under their own identifiers.
pub proof fn lemma_fetched_tracks_are_keyed(tracks: Seq<TrackView>, id: u64)
    requires
        tracks_by_id(tracks).contains_key(id),
    ensures
        tracks_by_id(tracks)[id].id == id,
    decreases tracks.len(),
{
    if tracks.len() > 0 && tracks.last().id != id {
        lemma_fetched_tracks_are_keyed(tracks.drop_last(), id);
    }
}

/// What is gathered are songs that were asked for, and no song that was asked for and fetched
/// is missing, whatever the cache finds.
pub proof fn lemma_gathered_tracks(
    start: Gathered,
    ids: Seq<u64>,
    found: Seq<Option<TrackView>>,
    id: u64,
)
    requires
        start.is_keyed(),
        start.tracks.len() == 0,
        found.len() == ids.len(),
        start.may_find(ids, found),
    ensures
        start.all(ids, found).is_keyed(),
        start.all(ids, found).tracks.len() <= ids.len(),
        forall|i: int|
            0 <= i < start.all(ids, found).tracks.len() ==> ids.contains(
                (#[trigger] start.all(ids, found).tracks[i]).id,
            ),
        ids.contains(id) && start.fetched.contains_key(id) ==> has_track(
            start.all(ids, found).tracks,
            id,
        ),
        !ids.contains(id) && start.fetched.contains_key(id) ==> start.all(
            ids,
            found,
        ).fetched.contains_key(id),
    decreases ids.len(),
{
    if ids.len() > 0 {
        let shorter = ids.drop_last();
        let before = start.all(shorter, found.drop_last());
        let after = start.all(ids, found);
        lemma_gathered_tracks(start, shorter, found.drop_last(), id);
        assert forall|i: int| 0 <= i < after.tracks.len() implies ids.contains(
            (#[trigger] after.tracks[i]).id,
        ) by {
            if i < before.tracks.len() {
                assert(after.tracks[i] == before.tracks[i]);
                let j = choose|j: int| 0 <= j < shorter.len() && shorter[j] == before.tracks[i].id;
                assert(ids[j] == before.tracks[i].id);
            } else {
                assert(ids[ids.len() - 1] == after.tracks[i].id);
            }
        }
        if start.fetched.contains_key(id) {
            if shorter.contains(id) {
                let i = choose|i: int|
                    0 <= i < before.tracks.len() && (#[trigger] before.tracks[i]).id == id;
                assert(after.tracks[i].id == id);
            } else if ids.contains(id) {
                let i = choose|i: int| 0 <= i < ids.len() && ids[i] == id;
                assert(i == ids.len() - 1) by {
                    if i < ids.len() - 1 {
                        assert(shorter[i] == id);
                    }
                }
                assert(before.fetched.contains_key(id));
                assert(after.tracks.last().id == id);
            }
            if !ids.contains(id) {
                assert(!shorter.contains(id)) by {
                    if shorter.contains(id) {
                        let i = choose|i: int| 0 <= i < shorter.len() && shorter[i] == id;
                        assert(ids[i] == id);
                    }
                }
                assert(ids[ids.len() - 1] != id);
            }
        }
    }
}

/// Whether a song is among others.
pub open spec fn has_track(tracks: Seq<TrackView>, id: u64) -> bool {
    exists|i: int| 0 <= i < tracks.len() && (#[trigger] tracks[i]).id == id
}

/// Images of the same sort are kept in different files, unless they show the same in the same
/// width.
pub proof fn lemma_image_stems_differ(
    what: Seq<char>,
    id: u64,
    width: u16,
    other_id: u64,
    other_width: u16,
)
    requires
        image_stem(what, id, width) == image_stem(what, other_id, other_width),
    ensures
        id == other_id,
        width == other_width,
{
    reveal_strlit("_");
    let a = decimal(id as nat);
    let b = decimal(other_id as nat);
    let a_rest = "_"@ + decimal(width as nat);
    let b_rest = "_"@ + decimal(other_width as nat);
    lemma_decimal_round_trip(id as nat);
    lemma_decimal_round_trip(other_id as nat);
    lemma_decimal_round_trip(width as nat);
    lemma_decimal_round_trip(other_width as nat);
    assert(a + a_rest =~= image_stem(what, id, width).skip(what.len() as int));
    assert(b + b_rest =~= image_stem(what, other_id, other_width).skip(what.len() as int));
    lemma_digits_end(a, a_rest, b, b_rest);
    assert(decimal(width as nat) =~= a_rest.skip(1));
    assert(decimal(other_width as nat) =~= b_rest.skip(1));
}

/// Songs that are all there come out in the order in which they were asked for, each as the cache
/// found it or else as it was fetched; and what was fetched is known from then on.
pub proof fn lemma_songs_come_in_the_order_asked_for(
    start: Gathered,
    ids: Seq<u64>,
    found: Seq<Option<TrackView>>,
    i: int,
    id: u64,
)
    requires
        start.tracks.len() == 0,
        found.len() == ids.len(),
        ids.no_duplicates(),
        forall|k: int|
            0 <= k < ids.len() ==> (#[trigger] found[k]) is Some || start.fetched.contains_key(
                ids[k],
            ),
    ensures
        start.all(ids, found).tracks.len() == ids.len(),
        0 <= i < ids.len() ==> start.all(ids, found).tracks[i] == (match found[i] {
            Some(track) => track,
            None => start.fetched[ids[i]],
        }),
        0 <= i < ids.len() && found[i] is None ==> start.all(ids, found).recorded.contains_key(
            ids[i],
        ) && start.all(ids, found).recorded[ids[i]] == start.fetched[ids[i]],
        start.recorded.contains_key(id) && !ids.contains(id) ==> start.all(
            ids,
            found,
        ).recorded.contains_key(id) && start.all(ids, found).recorded[id] == start.recorded[id],
        start.fetched.contains_key(id) && !ids.contains(id) ==> start.all(
            ids,
            found,
        ).fetched.contains_key(id) && start.all(ids, found).fetched[id] == start.fetched[id],
    decreases ids.len(),
{
    if ids.len() > 0 {
        let shorter = ids.drop_last();
        let fewer = found.drop_last();
        let last = ids.last();
        assert forall|k: int| 0 <= k < shorter.len() implies (#[trigger] fewer[k]) is Some
            || start.fetched.contains_key(shorter[k]) by {
            assert(fewer[k] == found[k]);
        }
        assert(!shorter.contains(last)) by {
            if shorter.contains(last) {
                let k = choose|k: int| 0 <= k < shorter.len() && shorter[k] == last;
                assert(ids[k] == ids[ids.len() - 1]);
            }
        }
        assert(shorter.contains(id) ==> ids.contains(id)) by {
            if shorter.contains(id) {
                let k = choose|k: int| 0 <= k < shorter.len() && shorter[k] == id;
                assert(ids[k] == id);
            }
        }
        assert(ids[ids.len() - 1] == last);
        lemma_songs_come_in_the_order_asked_for(start, shorter, fewer, i, id);
        lemma_songs_come_in_the_order_asked_for(start, shorter, fewer, i, last);
        assert(found[found.len() - 1] is Some || start.fetched.contains_key(last));
        if 0 <= i < shorter.len() {
            assert(fewer[i] == found[i]);
            assert(ids[i] != last);
        }
    }
}

/// Of several songs with one identifier the last one counts.
pub proof fn lemma_last_fetched_song_counts(tracks: Seq<TrackView>, track: TrackView, id: u64)
    ensures
        tracks_by_id(tracks.push(track)).contains_key(track.id),
        tracks_by_id(tracks.push(track))[track.id] == track,
        id != track.id ==> (tracks_by_id(tracks.push(track)).contains_key(id) <==> tracks_by_id(
            tracks,
        ).contains_key(id)),
        id != track.id && tracks_by_id(tracks).contains_key(id) ==> tracks_by_id(
            tracks.push(track),
        )[id] == tracks_by_id(tracks)[id],
        !tracks_by_id(Seq::empty()).contains_key(id),
{
    assert(tracks.push(track).drop_last() =~= tracks);
}

/// The songs that are not held are those to fetch, each of them, in their order.
pub proof fn lemma_songs_that_are_not_held_are_fetched(
    ids: Seq<u64>,
    marks: Seq<bool>,
    id: u64,
    held: bool,
)
    requires
        ids.len() == marks.len(),
    ensures
        unmarked(Seq::empty(), Seq::empty()).len() == 0,
        unmarked(ids.push(id), marks.push(held)) == (if held {
            unmarked(ids, marks)
        } else {
            unmarked(ids, marks).push(id)
        }),
{
    assert(ids.push(id).drop_last() =~= ids);
    assert(marks.push(held).drop_last() =~= marks);
}

/// A square image is asked for in its width, both ways, and kept under its name and that width.
pub proof fn lemma_square_image_is_asked_for(
    request: ImageRequest,
    what: Seq<char>,
    id: u64,
    url: Seq<char>,
    dir: Seq<char>,
    width: u16,
)
    requires
        wants_square(request, image_stem(what, id, width), url, dir, width),
    ensures
        request.url@ == url + "?param="@ + decimal(width as nat) + "y"@ + decimal(width as nat),
        request.png@ == what + decimal(id as nat) + "_"@ + decimal(width as nat) + ".png"@,
        request.jpg@ == what + decimal(id as nat) + "_"@ + decimal(width as nat) + ".jpg"@,
{
    crate::api::images::lemma_texts_of_an_image(
        dir,
        image_stem(what, id, width),
        url,
        width,
        width,
    );
}

/// What a cache may find of a further song: what it was given last under that identifier, and it
/// must find that unless it was given more than it keeps.
pub proof fn lemma_what_may_be_found(
    start: Gathered,
    ids: Seq<u64>,
    found: Seq<Option<TrackView>>,
    id: u64,
    one: Option<TrackView>,
)
    requires
        ids.len() == found.len(),
        start.may_find(ids.push(id), found.push(one)),
    ensures
        start.may_find(ids, found),
        one matches Some(track) ==> start.all(ids, found).recorded.contains_key(id) && start.all(
            ids,
            found,
        ).recorded[id] == track,
        one is None ==> !start.all(ids, found).recorded.contains_key(id) || start.all(
            ids,
            found,
        ).recorded.dom().len() > start.all(ids, found).capacity,
{
    assert(ids.push(id).drop_last() =~= ids);
    assert(found.push(one).drop_last() =~= found);
}

} // verus!
