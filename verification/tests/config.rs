use smt::player::{PlayerRuntimeConfig, ShuffleState};
use smt::Config;

#[test]
fn the_settings_before_anyone_changed_them() {
    let config = Config::default();
    assert_eq!(config.cookie_store_path, "D:/code/smt/smt/cache/cookie");
    assert_eq!(config.assets_dir, "D:/code/smt/smt/asset");
    assert_eq!(config.player_state_path, "D:/code/smt/smt/cache/player_state.json");
    assert_eq!(config.max_cons, 3);
    assert_eq!(config.cache_capacity, 1 << 30);
    assert_eq!(config.player_event_loop_gap_ms, 50);
    assert_eq!(ShuffleState::default(), ShuffleState::Disabled);
}

#[test]
fn how_often_the_device_is_looked_up() {
    let ticks = |gap_ms: u64| {
        let mut config = Config::default();
        config.player_event_loop_gap_ms = gap_ms;
        PlayerRuntimeConfig::from_config(&config).default_output_check_every_ticks
    };
    assert_eq!(ticks(50), 20);
    assert_eq!(ticks(0), 1000);
    assert_eq!(ticks(999), 2);
    assert_eq!(ticks(1000), 1);
    assert_eq!(ticks(u64::MAX), 1);
    let runtime = PlayerRuntimeConfig::from_config(&Config::default());
    assert_eq!(runtime.history_capacity, 100);
    assert_eq!(runtime.insert_prefetch_count, 3);
}
