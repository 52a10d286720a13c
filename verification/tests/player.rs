use smt::player::{
    Command, Phase, PlayMode, PlayStatus, PlayerCore, PlayerPersistState, PlayerStateFrame,
    PersistedPlayStatus, PlaylistBase, Position, Report, ShuffleState, SinkState, Step,
};
use smt::player::persist::tmp_state_name;
use smt::player::signal::EndSignal;
use smt::Config;

/// An audio output that only remembers what it was told.
struct Output {
    sink: SinkState,
    device: Option<String>,
    bad_paths: Vec<String>,
    seek_works: bool,
    started: Vec<String>,
    downloads: Vec<Vec<u64>>,
    rebinds: usize,
    saved: Option<PlayerPersistState>,
}

fn at(ms: u64) -> Position {
    Position::from_millis(ms)
}

fn output() -> Output {
    Output {
        sink: SinkState { paused: false, empty: true, position: at(0), finished_epoch: 0 },
        device: Some("speakers".to_string()),
        bad_paths: Vec::new(),
        seek_works: true,
        started: Vec::new(),
        downloads: Vec::new(),
        rebinds: 0,
        saved: None,
    }
}

fn player() -> PlayerCore {
    PlayerCore::new(&Config::default(), "speakers".to_string(), None)
}

fn ready(player: &mut PlayerCore, ids: &[u64]) {
    for id in ids {
        player.download_finished(*id, Some(format!("{}.mp3", id)));
    }
}

fn carry_out(player: &mut PlayerCore, out: &mut Output, command: Command) -> Report {
    let mut ok = true;
    let mut seek_ok = true;
    let mut device = None;
    match command {
        Command::QueryDefaultOutput => device = out.device.clone(),
        Command::RebindOutput => {
            out.rebinds += 1;
            ok = out.device.is_some();
            if ok {
                device = out.device.clone();
                out.sink.paused = false;
                out.sink.empty = true;
            }
        }
        Command::Play => out.sink.paused = false,
        Command::Pause => out.sink.paused = true,
        Command::Stop => {
            out.sink.paused = false;
            out.sink.empty = true;
        }
        Command::Seek { position } => {
            ok = out.seek_works;
            if ok {
                out.sink.position = position;
            }
        }
        Command::Start { path, stop_first, seek_to, pause_after_start, .. } => {
            if stop_first {
                out.sink.paused = false;
                out.sink.empty = true;
            }
            ok = !out.bad_paths.contains(&path);
            if ok {
                out.started.push(path);
                out.sink.empty = false;
                out.sink.paused = pause_after_start;
                out.sink.position = at(0);
                if let Some(position) = seek_to {
                    seek_ok = out.seek_works;
                    if seek_ok {
                        out.sink.position = position;
                    }
                }
            }
        }
        Command::Download { song_ids, stop_first } => {
            if stop_first {
                out.sink.paused = false;
                out.sink.empty = true;
            }
            player.downloads_started(&song_ids);
            out.downloads.push(song_ids);
        }
    }
    Report { ok, seek_ok, device, sink: out.sink }
}

fn run(player: &mut PlayerCore, out: &mut Output, first: Step) -> PlayStatus {
    let mut step = first;
    loop {
        match step {
            Step::Wait { command, phase } => {
                let report = carry_out(player, out, command);
                step = player.report(phase, report);
            }
            Step::Done(status) => return status,
            Step::Frame { frame, persist } => {
                if persist.is_some() {
                    out.saved = persist;
                }
                return frame.play_status;
            }
        }
    }
}

fn tick(player: &mut PlayerCore, out: &mut Output) -> PlayStatus {
    let step = player.event_loop(out.sink);
    run(player, out, step)
}

fn next(player: &mut PlayerCore, out: &mut Output) -> PlayStatus {
    let step = player.next_song(out.sink);
    run(player, out, step)
}

fn prev(player: &mut PlayerCore, out: &mut Output) -> PlayStatus {
    let step = player.prev_song(out.sink);
    run(player, out, step)
}

fn list(player: &mut PlayerCore, out: &mut Output, ids: &[u64]) {
    if let Some(command) = player.replace_playlist(ids.to_vec(), PlaylistBase::Album(9), out.sink) {
        carry_out(player, out, command);
    }
}

/// Ends the active playback, which is the last of those that were started.
fn finish_song(out: &mut Output) {
    out.sink.finished_epoch = out.started.len() as u64;
    out.sink.empty = true;
}

#[test]
fn a_new_player_is_stopped() {
    let mut player = player();
    let mut out = output();
    assert_eq!(player.get_current_id(), None);
    assert_eq!(player.play_mode(), PlayMode::Sequence);
    assert_eq!(*player.get_playlist_base(), PlaylistBase::Nothing);
    assert_eq!(tick(&mut player, &mut out), PlayStatus::Stopped);
    let step = player.resume(out.sink);
    assert_eq!(run(&mut player, &mut out, step), PlayStatus::Stopped);
    let step = player.pause(out.sink);
    assert_eq!(run(&mut player, &mut out, step), PlayStatus::Stopped);
    let step = player.toggle_pause_resume(out.sink);
    assert_eq!(run(&mut player, &mut out, step), PlayStatus::Stopped);
    let step = player.seek_to_duration(at(5), out.sink);
    assert_eq!(run(&mut player, &mut out, step), PlayStatus::Stopped);
    assert!(out.started.is_empty());
}

#[test]
fn a_missing_song_is_downloaded_with_those_ahead() {
    let mut player = player();
    let mut out = output();
    list(&mut player, &mut out, &[30, 10, 20, 40]);
    assert_eq!(*player.get_playlist_base(), PlaylistBase::Album(9));
    assert_eq!(tick(&mut player, &mut out), PlayStatus::Downloading);
    assert_eq!(out.downloads, vec![vec![10, 20, 30]]);
    assert_eq!(tick(&mut player, &mut out), PlayStatus::Downloading);
    ready(&mut player, &[10, 20, 30]);
    assert_eq!(tick(&mut player, &mut out), PlayStatus::Playing(at(0)));
    assert_eq!(out.started, vec!["30.mp3"]);
    assert_eq!(out.downloads.len(), 1);
}

#[test]
fn songs_to_fetch_ahead_are_distinct_and_few() {
    let mut player = player();
    let mut out = output();
    list(&mut player, &mut out, &[1, 2, 2, 3, 4]);
    ready(&mut player, &[1]);
    assert_eq!(tick(&mut player, &mut out), PlayStatus::Playing(at(0)));
    assert_eq!(out.downloads, vec![vec![2, 3]]);
    // The song plays on: fetching ahead does not make it wait.
    assert_eq!(tick(&mut player, &mut out), PlayStatus::Playing(at(0)));
}

#[test]
fn enough_ready_songs_stop_the_fetching() {
    let mut player = player();
    let mut out = output();
    list(&mut player, &mut out, &[1, 2, 3, 4]);
    ready(&mut player, &[1, 3, 4]);
    tick(&mut player, &mut out);
    assert!(out.downloads.is_empty());
}

#[test]
fn the_end_of_a_song_counts_once() {
    let mut player = player();
    let mut out = output();
    list(&mut player, &mut out, &[1, 2, 3]);
    ready(&mut player, &[1, 2, 3]);
    tick(&mut player, &mut out);
    finish_song(&mut out);
    assert_eq!(tick(&mut player, &mut out), PlayStatus::Playing(at(0)));
    assert_eq!(player.get_current_id(), Some(2));
    out.sink.position = at(700);
    assert_eq!(tick(&mut player, &mut out), PlayStatus::Playing(at(700)));
    assert_eq!(player.get_current_id(), Some(2));
    assert_eq!(out.started, vec!["1.mp3", "2.mp3"]);
}

#[test]
fn a_sequence_ends() {
    let mut player = player();
    let mut out = output();
    list(&mut player, &mut out, &[1, 2]);
    ready(&mut player, &[1, 2]);
    tick(&mut player, &mut out);
    next(&mut player, &mut out);
    assert_eq!(player.get_current_id(), Some(2));
    finish_song(&mut out);
    assert_eq!(tick(&mut player, &mut out), PlayStatus::Stopped);
    assert_eq!(player.get_current_id(), None);
}

#[test]
fn a_looped_list_is_a_circle() {
    let mut player = player();
    let mut out = output();
    list(&mut player, &mut out, &[1, 2, 3]);
    ready(&mut player, &[1, 2, 3]);
    player.set_play_mode(PlayMode::LoopAll);
    tick(&mut player, &mut out);
    let mut seen = Vec::new();
    for _ in 0..3 {
        next(&mut player, &mut out);
        seen.push(player.get_current_id().unwrap());
    }
    assert_eq!(seen, vec![2, 3, 1]);
    prev(&mut player, &mut out);
    assert_eq!(player.get_current_id(), Some(3));
}

#[test]
fn one_song_is_looped() {
    let mut player = player();
    let mut out = output();
    list(&mut player, &mut out, &[1, 2]);
    ready(&mut player, &[1, 2]);
    player.set_play_mode(PlayMode::LoopOne);
    tick(&mut player, &mut out);
    finish_song(&mut out);
    tick(&mut player, &mut out);
    assert_eq!(out.started, vec!["1.mp3", "1.mp3"]);
    // Asking for the next song goes on all the same.
    next(&mut player, &mut out);
    assert_eq!(player.get_current_id(), Some(2));
}

#[test]
fn back_after_forward() {
    let mut player = player();
    let mut out = output();
    list(&mut player, &mut out, &[1, 2, 3]);
    ready(&mut player, &[1, 2, 3]);
    tick(&mut player, &mut out);
    next(&mut player, &mut out);
    prev(&mut player, &mut out);
    assert_eq!(player.get_current_id(), Some(1));
    prev(&mut player, &mut out);
    assert_eq!(player.get_current_id(), Some(1));
}

#[test]
fn modes_take_turns() {
    let mut player = player();
    let mut modes = Vec::new();
    for _ in 0..3 {
        player.toggle_play_mode();
        modes.push(player.play_mode());
    }
    assert_eq!(modes, vec![PlayMode::LoopAll, PlayMode::LoopOne, PlayMode::Sequence]);
}

#[test]
fn broken_songs_are_passed_over() {
    let mut player = player();
    let mut out = output();
    list(&mut player, &mut out, &[1, 2, 3]);
    ready(&mut player, &[1, 2, 3]);
    out.bad_paths.push("1.mp3".to_string());
    player.download_finished(2, None);
    assert_eq!(tick(&mut player, &mut out), PlayStatus::Playing(at(0)));
    assert_eq!(player.get_current_id(), Some(3));
    assert_eq!(out.started, vec!["3.mp3"]);
}

#[test]
fn a_request_that_fails_is_not_waited_for() {
    let mut player = player();
    let mut out = output();
    list(&mut player, &mut out, &[1, 2, 3]);
    ready(&mut player, &[3]);
    assert_eq!(tick(&mut player, &mut out), PlayStatus::Downloading);
    assert_eq!(out.downloads.len(), 1);
    let asked = out.downloads[0].clone();
    assert_eq!(asked, vec![1, 2]);
    assert_eq!(tick(&mut player, &mut out), PlayStatus::Downloading);
    player.downloads_failed(&asked);
    // The songs that were asked for in vain are passed over; the others are as before.
    assert_eq!(tick(&mut player, &mut out), PlayStatus::Playing(at(0)));
    assert_eq!(player.get_current_id(), Some(3));
    assert_eq!(out.started, vec!["3.mp3"]);
}

#[test]
fn an_end_is_taken_once() {
    let mut player = player();
    let mut out = output();
    list(&mut player, &mut out, &[1, 2]);
    ready(&mut player, &[1, 2]);
    assert_eq!(tick(&mut player, &mut out), PlayStatus::Playing(at(0)));
    assert!(!player.take_finished_playback_event(out.sink));
    out.sink.finished_epoch = 7;
    assert!(!player.take_finished_playback_event(out.sink));
    out.sink.finished_epoch = 1;
    assert!(player.take_finished_playback_event(out.sink));
    assert!(!player.take_finished_playback_event(out.sink));
    next(&mut player, &mut out);
    assert!(!player.take_finished_playback_event(out.sink));
    out.sink.finished_epoch = 2;
    assert!(player.take_finished_playback_event(out.sink));
    assert!(!player.take_finished_playback_event(out.sink));
}

#[test]
fn the_end_of_a_source_is_told_once() {
    let mut signal = EndSignal::new(4);
    assert_eq!(signal.sampled(false), None);
    assert_eq!(signal.sampled(true), Some(4));
    assert_eq!(signal.sampled(true), None);
    assert_eq!(signal.sampled(false), None);
    assert_eq!(signal.sampled(true), None);
    assert_eq!(signal, EndSignal { epoch: 4, signaled: true });
}

#[test]
fn the_player_stops_when_nothing_plays() {
    let mut player = player();
    let mut out = output();
    list(&mut player, &mut out, &[1, 2, 3]);
    player.set_play_mode(PlayMode::LoopAll);
    for id in [1, 2, 3] {
        player.download_finished(id, None);
    }
    assert_eq!(tick(&mut player, &mut out), PlayStatus::Stopped);
    assert!(out.started.is_empty());
}

#[test]
fn shuffling_keeps_the_songs_and_the_current_one() {
    let mut player = player();
    let mut out = output();
    let ids: Vec<u64> = (1..60).collect();
    list(&mut player, &mut out, &ids);
    ready(&mut player, &ids);
    tick(&mut player, &mut out);
    next(&mut player, &mut out);
    assert_eq!(player.get_current_id(), Some(2));
    player.toggle_shuffle();
    let mut order = player.get_playlist().clone();
    assert_ne!(order, ids);
    order.sort();
    assert_eq!(order, ids);
    assert_eq!(player.get_current_id(), Some(2));
    player.toggle_shuffle();
    assert_eq!(*player.get_playlist(), ids);
    assert_eq!(player.get_current_id(), Some(2));
}

#[test]
fn shuffling_anew_starts_from_the_same_songs() {
    let mut player = player();
    let mut out = output();
    let ids: Vec<u64> = (1..40).collect();
    list(&mut player, &mut out, &ids);
    ready(&mut player, &ids);
    tick(&mut player, &mut out);
    player.shuffle_playlist();
    for _ in 0..45 {
        next(&mut player, &mut out);
        assert!(player.get_current_id().is_some());
    }
    player.restore_playlist_order();
    assert_eq!(*player.get_playlist(), ids);
    player.restore_playlist_order();
    assert_eq!(*player.get_playlist(), ids);
}

#[test]
fn a_short_list_has_no_other_order() {
    let mut player = player();
    let mut out = output();
    player.toggle_shuffle();
    assert!(player.get_playlist().is_empty());
    list(&mut player, &mut out, &[7]);
    player.shuffle_playlist();
    assert_eq!(*player.get_playlist(), vec![7]);
}

#[test]
fn another_order_is_taken_over() {
    let mut player = player();
    let mut out = output();
    list(&mut player, &mut out, &[1, 2, 3]);
    ready(&mut player, &[1, 2, 3]);
    tick(&mut player, &mut out);
    player.adopt_order(vec![3, 1, 2], true);
    assert_eq!(player.get_current_id(), Some(1));
    player.adopt_order(vec![2, 3, 1], false);
    assert_eq!(player.get_current_id(), Some(3));
}

#[test]
fn songs_are_put_in_after_the_current_one() {
    let mut player = player();
    let mut out = output();
    assert!(player.insert_songs(&Vec::new()).is_none());
    match player.insert_songs(&vec![1, 2, 3, 4]) {
        Some(Command::Download { song_ids, stop_first }) => {
            assert_eq!(song_ids, vec![1, 2, 3]);
            assert!(!stop_first);
        }
        other => panic!("{:?}", other),
    }
    assert_eq!(player.get_current_id(), Some(1));
    assert_eq!(player.status(out.sink), PlayStatus::Downloading);
    ready(&mut player, &[1]);
    tick(&mut player, &mut out);
    player.insert_songs(&vec![8, 9]);
    assert_eq!(*player.get_playlist(), vec![1, 8, 9, 2, 3, 4]);
    assert_eq!(tick(&mut player, &mut out), PlayStatus::Playing(at(0)));
}

#[test]
fn songs_are_put_in_while_shuffled() {
    let mut player = player();
    let mut out = output();
    list(&mut player, &mut out, &[1, 2, 3]);
    ready(&mut player, &[1, 2, 3]);
    tick(&mut player, &mut out);
    next(&mut player, &mut out);
    player.toggle_shuffle();
    player.insert_songs(&vec![8, 9]);
    player.toggle_shuffle();
    assert_eq!(*player.get_playlist(), vec![1, 2, 8, 9, 3]);
    assert_eq!(player.get_current_id(), Some(2));
}

#[test]
fn playing_a_song_by_name() {
    let mut player = player();
    let mut out = output();
    list(&mut player, &mut out, &[1, 2, 3]);
    ready(&mut player, &[1, 2, 3, 50]);
    let step = player.play(3);
    assert_eq!(run(&mut player, &mut out, step), PlayStatus::Playing(at(0)));
    assert_eq!(player.get_current_id(), Some(3));
    let step = player.play(1);
    run(&mut player, &mut out, step);
    let step = player.play(50);
    run(&mut player, &mut out, step);
    assert_eq!(*player.get_playlist(), vec![1, 50, 2, 3]);
    assert_eq!(out.started, vec!["3.mp3", "1.mp3", "50.mp3"]);
    assert_eq!(out.rebinds, 0);
}

#[test]
fn pausing_and_going_on() {
    let mut player = player();
    let mut out = output();
    list(&mut player, &mut out, &[1]);
    ready(&mut player, &[1]);
    tick(&mut player, &mut out);
    out.sink.position = at(1500);
    let step = player.toggle_pause_resume(out.sink);
    assert_eq!(run(&mut player, &mut out, step), PlayStatus::Paused(at(1500)));
    assert_eq!(tick(&mut player, &mut out), PlayStatus::Paused(at(1500)));
    let step = player.toggle_pause_resume(out.sink);
    assert_eq!(run(&mut player, &mut out, step), PlayStatus::Playing(at(1500)));
    let step = player.pause(out.sink);
    assert_eq!(run(&mut player, &mut out, step), PlayStatus::Paused(at(1500)));
    let step = player.resume(out.sink);
    assert_eq!(run(&mut player, &mut out, step), PlayStatus::Playing(at(1500)));
    let step = player.seek_to_duration(at(60000), out.sink);
    assert_eq!(run(&mut player, &mut out, step), PlayStatus::Playing(at(60000)));
}

#[test]
fn seeking_waits_for_the_download() {
    let mut player = player();
    let mut out = output();
    list(&mut player, &mut out, &[1]);
    let step = player.seek_to_duration(at(9000), out.sink);
    assert_eq!(run(&mut player, &mut out, step), PlayStatus::Downloading);
    ready(&mut player, &[1]);
    out.seek_works = false;
    assert_eq!(tick(&mut player, &mut out), PlayStatus::Playing(at(0)));
    out.seek_works = true;
    assert_eq!(tick(&mut player, &mut out), PlayStatus::Playing(at(9000)));
}

#[test]
fn another_output_device() {
    let mut player = player();
    let mut out = output();
    list(&mut player, &mut out, &[1]);
    ready(&mut player, &[1]);
    tick(&mut player, &mut out);
    out.sink.position = at(4000);
    out.device = Some("headphones".to_string());
    // The device is looked up every twentieth turn.
    for _ in 0..18 {
        assert_eq!(tick(&mut player, &mut out), PlayStatus::Playing(at(4000)));
    }
    assert_eq!(tick(&mut player, &mut out), PlayStatus::Paused(at(4000)));
    let step = player.resume(out.sink);
    assert_eq!(run(&mut player, &mut out, step), PlayStatus::Playing(at(4000)));
    assert_eq!(out.rebinds, 1);
    assert_eq!(out.started, vec!["1.mp3", "1.mp3"]);
    let step = player.toggle_pause_resume(out.sink);
    assert_eq!(run(&mut player, &mut out, step), PlayStatus::Paused(at(4000)));
    let step = player.toggle_pause_resume(out.sink);
    run(&mut player, &mut out, step);
    assert_eq!(out.rebinds, 1);
}

#[test]
fn a_lost_output_device_is_not_followed() {
    let mut player = player();
    let mut out = output();
    list(&mut player, &mut out, &[1]);
    ready(&mut player, &[1]);
    out.device = None;
    let step = player.play(1);
    assert_eq!(run(&mut player, &mut out, step), PlayStatus::Playing(at(0)));
    assert_eq!(out.rebinds, 0);
}

#[test]
fn the_history_is_bounded() {
    let mut config = Config::default();
    config.history_capacity = 2;
    let mut player = PlayerCore::new(&config, "speakers".to_string(), None);
    let mut out = output();
    list(&mut player, &mut out, &[1, 2, 3]);
    ready(&mut player, &[1, 2, 3]);
    tick(&mut player, &mut out);
    let step = player.play(1);
    run(&mut player, &mut out, step);
    assert_eq!(player.persist_state(out.sink).history, vec![1]);
    next(&mut player, &mut out);
    next(&mut player, &mut out);
    assert_eq!(player.persist_state(out.sink).history, vec![2, 3]);
}

#[test]
fn the_state_is_written_every_sixtieth_turn() {
    let mut player = player();
    let mut out = output();
    list(&mut player, &mut out, &[1]);
    ready(&mut player, &[1]);
    for _ in 0..59 {
        tick(&mut player, &mut out);
        assert!(out.saved.is_none());
    }
    out.sink.position = at(2500);
    tick(&mut player, &mut out);
    let saved = out.saved.clone().unwrap();
    assert_eq!(saved.playlist, vec![1]);
    assert_eq!(saved.status, PersistedPlayStatus::Playing(2500));
    assert_eq!(tmp_state_name("player_state.json"), "player_state.json.tmp");
}

#[test]
fn a_saved_state_comes_back_paused() {
    let mut player = player();
    let mut out = output();
    list(&mut player, &mut out, &[1, 2, 3]);
    ready(&mut player, &[1, 2, 3]);
    tick(&mut player, &mut out);
    next(&mut player, &mut out);
    player.toggle_shuffle();
    player.toggle_play_mode();
    out.sink.position = at(1234);
    let saved = player.persist_state(out.sink);

    let config = Config::default();
    let mut again = PlayerCore::new(&config, "speakers".to_string(), Some(saved.clone()));
    let mut out = output();
    assert_eq!(again.get_current_id(), Some(2));
    assert_eq!(again.play_mode(), PlayMode::LoopAll);
    assert_eq!(again.status(out.sink), PlayStatus::Paused(at(1234)));
    let written = again.persist_state(out.sink);
    assert_eq!(written.playlist, saved.playlist);
    assert_eq!(written.original_playlist, Some(vec![1, 2, 3]));
    assert_eq!(written.shuffle_state, ShuffleState::Enabled);
    assert_eq!(written.history, vec![1, 2]);
    assert_eq!(written.status, PersistedPlayStatus::Paused(1234));

    ready(&mut again, &[1, 2, 3]);
    let step = again.resume(out.sink);
    assert_eq!(run(&mut again, &mut out, step), PlayStatus::Playing(at(1234)));
}

#[test]
fn a_saved_state_with_a_bad_index_is_stopped() {
    let saved = PlayerPersistState {
        playlist: vec![1],
        current_index: Some(5),
        mode: PlayMode::LoopOne,
        shuffle_state: ShuffleState::Enabled,
        original_playlist: None,
        history: vec![],
        status: PersistedPlayStatus::Paused(10),
    };
    let player = PlayerCore::new(&Config::default(), "x".to_string(), Some(saved));
    let out = output();
    assert_eq!(player.get_current_id(), None);
    assert_eq!(player.status(out.sink), PlayStatus::Stopped);
    assert_eq!(player.persist_state(out.sink).original_playlist, Some(vec![1]));
}

#[test]
fn a_failed_rebind_lets_the_old_output_play() {
    let mut player = player();
    let mut out = output();
    list(&mut player, &mut out, &[1]);
    ready(&mut player, &[1]);
    tick(&mut player, &mut out);
    out.sink.paused = true;
    out.device = Some("other".to_string());
    let step = player.resume(out.sink);
    let phase = match step {
        Step::Wait { command: Command::QueryDefaultOutput, phase } => phase,
        other => panic!("{:?}", other),
    };
    let told = Report { ok: true, seek_ok: true, device: out.device.clone(), sink: out.sink };
    let step = player.report(phase, told);
    let phase = match step {
        Step::Wait { command: Command::RebindOutput, phase } => phase,
        other => panic!("{:?}", other),
    };
    assert!(matches!(phase, Phase::ResumeRebind { restore: true, .. }));
    let told = Report { ok: false, seek_ok: true, device: None, sink: out.sink };
    let step = player.report(phase, told);
    assert_eq!(run(&mut player, &mut out, step), PlayStatus::Playing(at(0)));
}

#[test]
fn a_frame_shows_the_order() {
    let mut player = player();
    let out = output();
    player.toggle_shuffle();
    player.toggle_play_mode();
    match player.event_loop(out.sink) {
        Step::Frame { frame, .. } => {
            let PlayerStateFrame { play_status, play_order } = frame;
            assert_eq!(play_status, PlayStatus::Stopped);
            assert_eq!(play_order.play_mode, PlayMode::LoopAll);
            assert_eq!(play_order.shuffle_state, ShuffleState::Enabled);
        }
        other => panic!("{:?}", other),
    }
}

#[test]
fn positions() {
    assert_eq!(at(1500).nanos, 1_500_000_000);
    assert_eq!(Position { nanos: 1_999_999 }.as_millis(), 1);
    assert!(PlayStatus::Paused(at(1)).is_loaded());
    assert!(!PlayStatus::Downloading.is_loaded());
}
