//! The settings of the application and the limits that are fixed at compile time.
use vstd::prelude::*;

verus! {

/// The settings that a user may change.
#[derive(Clone)]
pub struct Config {
    pub cookie_store_path: String,
    pub cache_dir: String,
    pub max_cons: usize,
    pub cache_capacity: u64,
    pub assets_dir: String,
    pub insert_prefetch_count: usize,
    pub predict_prefetch_count: usize,
    pub history_capacity: usize,
    pub persist_every_ticks: u64,
    pub player_state_path: String,
    pub player_event_loop_gap_ms: u64,
}

impl Default for Config {
    fn default() -> (config: Self)
        ensures
            config.is_default(),
    {
        Config {
            cookie_store_path: "D:/code/smt/smt/cache/cookie".to_string(),
            cache_dir: "D:/code/smt/smt/cache".to_string(),
            assets_dir: "D:/code/smt/smt/asset".to_string(),
            max_cons: 3,
            cache_capacity: 1024 * 1024 * 1024 * 1,
            insert_prefetch_count: 3,
            predict_prefetch_count: 2,
            history_capacity: 100,
            persist_every_ticks: 60,
            player_state_path: "D:/code/smt/smt/cache/player_state.json".to_string(),
            player_event_loop_gap_ms: 50,
        }
    }
}

impl Config {
    /// Whether these are the settings before anyone changed them.
    pub open spec fn is_default(self) -> bool {
        &&& self.cookie_store_path@ == "D:/code/smt/smt/cache/cookie"@
        &&& self.cache_dir@ == "D:/code/smt/smt/cache"@
        &&& self.assets_dir@ == "D:/code/smt/smt/asset"@
        &&& self.max_cons == 3
        &&& self.cache_capacity == 1024 * 1024 * 1024
        &&& self.insert_prefetch_count == 3
        &&& self.predict_prefetch_count == 2
        &&& self.history_capacity == 100
        &&& self.persist_every_ticks == 60
        &&& self.player_state_path@ == "D:/code/smt/smt/cache/player_state.json"@
        &&& self.player_event_loop_gap_ms == 50
    }

    pub const PLAYER_QUEUE_BUDGET: usize = 256;

    pub const MUSIC_CACHE_SUBDIR: &'static str = "music";

    pub const IMAGE_CACHE_SUBDIR: &'static str = "image";

    pub const PLAYER_STATE_TMP_SUFFIX: &'static str = ".tmp";

    pub const IMAGE_DOWNLOAD_CONCURRENCY: usize = 8;

    pub const AUDIO_DOWNLOAD_CONCURRENCY: usize = 5;

    pub const DOWNLOAD_CONNECT_TIMEOUT_SECS: u64 = 8;

    pub const DOWNLOAD_TIMEOUT_SECS: u64 = 20;

    pub const DOWNLOAD_MAX_RETRIES: usize = 2;

    pub const DOWNLOAD_RETRY_BACKOFF_MS: u64 = 150;

    /// How often the default output device is looked up, which is rarer than every tick.
    pub const PLAYER_DEFAULT_OUTPUT_CHECK_INTERVAL_MS: u64 = 1000;

    pub const COVER_FETCH_CONCURRENCY: usize = 4;

    pub const COVER_UPDATE_BATCH: usize = 8;

    pub const TRACK_DETAIL_MEMERY_CACHE_CAPACITY: u64 = 1024 * 1024;

    pub const PLAYLIST_MEMERY_CACHE_CAPACITY: u64 = 1024 * 1024;

    pub const NAVIGATOR_HISTORY_MAX: usize = 100;

    pub const MUSIC_BUFFER_SIZE: usize = 1024 * 1024 * 5;
}

/// The settings before anyone changed them.
pub proof fn lemma_settings_to_begin_with(config: Config)
    requires
        config.is_default(),
    ensures
        config.cookie_store_path@ == "D:/code/smt/smt/cache/cookie"@,
        config.cache_dir@ == "D:/code/smt/smt/cache"@,
        config.assets_dir@ == "D:/code/smt/smt/asset"@,
        config.player_state_path@ == "D:/code/smt/smt/cache/player_state.json"@,
        config.max_cons == 3,
        config.cache_capacity == 0x4000_0000,
        config.insert_prefetch_count == 3,
        config.predict_prefetch_count == 2,
        config.history_capacity == 100,
        config.persist_every_ticks == 60,
        config.player_event_loop_gap_ms == 50,
{
}

} // verus!
