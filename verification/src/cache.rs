//! Keeping songs and playlists in memory for a while. A cache is made for so many keys. As long
//! as no more were put in, it holds what was put in last under each of them; beyond that it may
//! drop any of them.
use moka::sync::Cache;
use vstd::prelude::*;

use crate::config::Config;
use crate::model::{PlaylistDetail, PlaylistView, TrackDetail, TrackView};

verus! {

/// The cache of `moka`.
#[verifier::external_type_specification]
#[verifier::external_body]
#[verifier::reject_recursive_types(K)]
#[verifier::reject_recursive_types(V)]
#[verifier::reject_recursive_types(S)]
pub struct ExCache<K, V, S>(moka::sync::Cache<K, V, S>);

/// What was last put into a cache of songs under each key.
pub uninterp spec fn recorded_tracks(cache: Cache<u64, TrackDetail>) -> Map<u64, TrackView>;

/// What was last put into a cache of playlists under each key.
pub uninterp spec fn recorded_playlists(
    cache: Cache<u64, PlaylistDetail>,
) -> Map<u64, PlaylistView>;

/// How many keys a cache of songs was made for.
pub uninterp spec fn track_capacity(cache: Cache<u64, TrackDetail>) -> u64;

/// How many keys a cache of playlists was made for.
pub uninterp spec fn playlist_capacity(cache: Cache<u64, PlaylistDetail>) -> u64;

/// Makes a cache for so many keys, by `moka::sync::Cache::new`. Nothing was put into it yet.
#[verifier::external_body]
fn new_track_cache(capacity: u64) -> (cache: Cache<u64, TrackDetail>)
    ensures
        recorded_tracks(cache).dom() == Set::<u64>::empty(),
        track_capacity(cache) == capacity,
{
    Cache::new(capacity)
}

/// Looks a song up, by `moka::sync::Cache::get`. A song that is found is a clone of what was
/// last put in under the key. Every key weighs one and none expires, so one that was put in is
/// found as long as no more keys were put in than the cache was made for. Whether one is found
/// beyond that is left unsaid: the cache may have dropped it.
#[verifier::external_body]
fn find_track(cache: &Cache<u64, TrackDetail>, id: u64) -> (track: Option<TrackDetail>)
    ensures
        track is Some ==> recorded_tracks(*cache).contains_key(id) && recorded_tracks(*cache)[id]
            == track->0@,
        recorded_tracks(*cache).contains_key(id) && recorded_tracks(*cache).dom().len()
            <= track_capacity(*cache) ==> track is Some,
{
    cache.get(&id)
}

/// Looks whether a song is held, by `moka::sync::Cache::contains_key`. One that is held was put
/// in under the key, and one that was put in is held as long as no more keys were put in than
/// the cache was made for. Whether one is held beyond that is left unsaid: the cache may have
/// dropped it.
#[verifier::external_body]
fn holds_track(cache: &Cache<u64, TrackDetail>, id: u64) -> (held: bool)
    ensures
        held ==> recorded_tracks(*cache).contains_key(id),
        recorded_tracks(*cache).contains_key(id) && recorded_tracks(*cache).dom().len()
            <= track_capacity(*cache) ==> held,
{
    cache.contains_key(&id)
}

/// Puts a song in under a key, by `moka::sync::Cache::insert`.
#[verifier::external_body]
fn record_track(cache: &mut Cache<u64, TrackDetail>, id: u64, track: TrackDetail)
    ensures
        recorded_tracks(*final(cache)) == recorded_tracks(*old(cache)).insert(id, track@),
        track_capacity(*final(cache)) == track_capacity(*old(cache)),
{
    cache.insert(id, track);
}

/// Makes a cache for so many keys, by `moka::sync::Cache::new`. Nothing was put into it yet.
#[verifier::external_body]
fn new_playlist_cache(capacity: u64) -> (cache: Cache<u64, PlaylistDetail>)
    ensures
        recorded_playlists(cache).dom() == Set::<u64>::empty(),
        playlist_capacity(cache) == capacity,
{
    Cache::new(capacity)
}

/// Looks a playlist up, by `moka::sync::Cache::get`. A playlist that is found is a clone of
/// what was last put in under the key. Every key weighs one and none expires, so one that was
/// put in is found as long as no more keys were put in than the cache was made for. Whether one
/// is found beyond that is left unsaid: the cache may have dropped it.
#[verifier::external_body]
fn find_playlist(
    cache: &Cache<u64, PlaylistDetail>,
    id: u64,
) -> (playlist: Option<PlaylistDetail>)
    ensures
        playlist is Some ==> recorded_playlists(*cache).contains_key(id)
            && recorded_playlists(*cache)[id] == playlist->0@,
        recorded_playlists(*cache).contains_key(id) && recorded_playlists(*cache).dom().len()
            <= playlist_capacity(*cache) ==> playlist is Some,
{
    cache.get(&id)
}

/// Puts a playlist in under a key, by `moka::sync::Cache::insert`.
#[verifier::external_body]
fn record_playlist(
    cache: &mut Cache<u64, PlaylistDetail>,
    id: u64,
    playlist: PlaylistDetail,
)
    ensures
        recorded_playlists(*final(cache)) == recorded_playlists(*old(cache)).insert(id, playlist@),
        playlist_capacity(*final(cache)) == playlist_capacity(*old(cache)),
{
    cache.insert(id, playlist);
}

/// The songs and the playlists that were asked for lately.
pub struct Caches {
    track_detail_cache: Cache<u64, TrackDetail>,
    playlist_cache: Cache<u64, PlaylistDetail>,
}

impl Caches {
    /// The songs that were put in, by their identifiers.
    pub closed spec fn tracks(self) -> Map<u64, TrackView> {
        recorded_tracks(self.track_detail_cache)
    }

    /// The playlists that were put in, by their identifiers.
    pub closed spec fn playlists(self) -> Map<u64, PlaylistView> {
        recorded_playlists(self.playlist_cache)
    }

    /// How many songs are kept for certain.
    pub closed spec fn track_capacity(self) -> u64 {
        track_capacity(self.track_detail_cache)
    }

    /// How many playlists are kept for certain.
    pub closed spec fn playlist_capacity(self) -> u64 {
        playlist_capacity(self.playlist_cache)
    }

    /// Whether a song was put in and cannot have been dropped.
    pub open spec fn keeps_track(self, id: u64) -> bool {
        self.tracks().contains_key(id) && self.tracks().dom().len() <= self.track_capacity()
    }

    /// Whether a playlist was put in and cannot have been dropped.
    pub open spec fn keeps_playlist(self, id: u64) -> bool {
        self.playlists().contains_key(id) && self.playlists().dom().len()
            <= self.playlist_capacity()
    }

    pub fn new() -> (caches: Caches)
        ensures
            caches.track_capacity() == Config::TRACK_DETAIL_MEMERY_CACHE_CAPACITY,
            caches.playlist_capacity() == Config::PLAYLIST_MEMERY_CACHE_CAPACITY,
            caches.tracks() == Map::<u64, TrackView>::empty(),
            caches.playlists() == Map::<u64, PlaylistView>::empty(),
    {
        let caches = Caches {
            track_detail_cache: new_track_cache(Config::TRACK_DETAIL_MEMERY_CACHE_CAPACITY),
            playlist_cache: new_playlist_cache(Config::PLAYLIST_MEMERY_CACHE_CAPACITY),
        };
        assert(caches.tracks() =~= Map::<u64, TrackView>::empty());
        assert(caches.playlists() =~= Map::<u64, PlaylistView>::empty());
        caches
    }

    /// Looks a song up. One that is found is what was last put in, and one that is kept is found.
    pub fn track(&self, id: u64) -> (track: Option<TrackDetail>)
        ensures
            track is Some ==> self.tracks().contains_key(id) && self.tracks()[id] == track->0@,
            self.keeps_track(id) ==> track is Some,
    {
        find_track(&self.track_detail_cache, id)
    }

    /// Looks whether a song is held. One that is held was put in, and one that is kept is held.
    pub fn has_track(&self, id: u64) -> (held: bool)
        ensures
            held ==> self.tracks().contains_key(id),
            self.keeps_track(id) ==> held,
    {
        holds_track(&self.track_detail_cache, id)
    }

    /// Puts a song in.
    pub fn add_track(&mut self, id: u64, track: TrackDetail)
        ensures
            final(self).tracks() == old(self).tracks().insert(id, track@),
            final(self).playlists() == old(self).playlists(),
            final(self).track_capacity() == old(self).track_capacity(),
            final(self).playlist_capacity() == old(self).playlist_capacity(),
    {
        record_track(&mut self.track_detail_cache, id, track);
    }

    /// Looks a playlist up. One that is found is what was last put in, and one that is kept is
    /// found.
    pub fn playlist(&self, id: u64) -> (playlist: Option<PlaylistDetail>)
        ensures
            playlist is Some ==> self.playlists().contains_key(id) && self.playlists()[id]
                == playlist->0@,
            self.keeps_playlist(id) ==> playlist is Some,
    {
        find_playlist(&self.playlist_cache, id)
    }

    /// Puts a playlist in.
    pub fn add_playlist(&mut self, id: u64, playlist: PlaylistDetail)
        ensures
            final(self).tracks() == old(self).tracks(),
            final(self).playlists() == old(self).playlists().insert(id, playlist@),
            final(self).track_capacity() == old(self).track_capacity(),
            final(self).playlist_capacity() == old(self).playlist_capacity(),
    {
        record_playlist(&mut self.playlist_cache, id, playlist);
    }
}

/// What was put into a cache is kept as long as no more was put in than it was made for; what was
/// not put in is not.
pub proof fn lemma_what_caches_keep(caches: Caches, id: u64)
    ensures
        caches.tracks().contains_key(id) && caches.tracks().dom().len() <= caches.track_capacity()
            ==> caches.keeps_track(id),
        !caches.tracks().contains_key(id) ==> !caches.keeps_track(id),
        caches.playlists().contains_key(id) && caches.playlists().dom().len()
            <= caches.playlist_capacity() ==> caches.keeps_playlist(id),
        !caches.playlists().contains_key(id) ==> !caches.keeps_playlist(id),
{
}

} // verus!
