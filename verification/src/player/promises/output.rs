//! What the audio output is told, what comes of it, and how the default device is followed.
use vstd::prelude::*;

use crate::player::flow::lemma_patience_shrinks;
use crate::player::laws::{lemma_predicted_songs, lemma_start_keeps_consistency};
use crate::player::promises::walk::{
    lemma_next_song_is_the_one_behind, lemma_ready_song_is_started,
};
use crate::player::state::{
    After, CommandView, Phase, PlayMode, PlayStatus, PlayerState, Position, Report, SinkState,
    StepView, ThenPlay, ThenResume, TrackSource,
};

verus! {

/// Whoever asks for a song to be started has the output stopped first exactly if it holds audio:
/// at most one song is ever queued there. The number of the new playback is not 0 and not that of
/// the last one.
pub proof fn lemma_start_replaces_what_plays(
    pre: PlayerState,
    after: After,
    sink: SinkState,
    post: PlayerState,
    step: StepView,
)
    requires
        pre.started(after, sink, post, step),
    ensures
        step matches StepView::Wait { command: CommandView::Start { stop_first, epoch, .. }, .. }
            ==> stop_first == (!sink.empty || sink.paused) && epoch != 0 && epoch
            != pre.active_playback_epoch,
        step matches StepView::Wait { command: CommandView::Download { stop_first, .. }, .. }
            ==> stop_first == (!sink.empty || sink.paused),
        post.active_playback_epoch == pre.active_playback_epoch,
    decreases pre.patience(), 1nat,
{
    if pre.current_source() matches Some(TrackSource::Unplayable) {
        lemma_failure_replaces_what_plays(pre, after, sink, post, step);
    }
}

proof fn lemma_failure_replaces_what_plays(
    pre: PlayerState,
    after: After,
    sink: SinkState,
    post: PlayerState,
    step: StepView,
)
    requires
        pre.failed(after, sink, post, step),
    ensures
        step matches StepView::Wait { command: CommandView::Start { stop_first, epoch, .. }, .. }
            ==> stop_first == (!sink.empty || sink.paused) && epoch != 0 && epoch
            != pre.active_playback_epoch,
        step matches StepView::Wait { command: CommandView::Download { stop_first, .. }, .. }
            ==> stop_first == (!sink.empty || sink.paused),
        post.active_playback_epoch == pre.active_playback_epoch,
    decreases pre.patience(), 0nat,
{
    let counted = pre.with_failure();
    if pre.has_patience() {
        let next = choose|next: PlayerState| #[trigger]
            counted.moved_to_next(next) && next.started(after, sink, post, step);
        lemma_patience_shrinks(pre, next);
        lemma_start_replaces_what_plays(next, after, sink, post, step);
    }
}

/// A turn of the event loop that starts a song has the output stopped first exactly if it holds
/// audio.
pub proof fn lemma_turn_replaces_what_plays(
    pre: PlayerState,
    sink: SinkState,
    post: PlayerState,
    step: StepView,
)
    requires
        pre.ticked(sink, post, step),
    ensures
        step matches StepView::Wait { command: CommandView::Start { stop_first, epoch, .. }, .. }
            ==> stop_first == (!sink.empty || sink.paused) && epoch != 0 && epoch
            != pre.active_playback_epoch,
        step matches StepView::Wait { command: CommandView::Download { stop_first, .. }, .. }
            ==> stop_first == (!sink.empty || sink.paused),
{
    let handled = PlayerState { handled_finished_epoch: sink.finished_epoch, ..pre };
    if pre.playlist.len() == 0 {
    } else if pre.current_index is None {
        lemma_start_replaces_what_plays(pre.with_index(Some(0)), After::Tick, sink, post, step);
    } else if sink.paused {
    } else if pre.last_status is Downloading {
        if pre.current_source() is Some && !pre.current_requires_download() {
            lemma_start_replaces_what_plays(pre, After::Tick, sink, post, step);
        }
    } else if pre.has_finished(sink) {
        if pre.mode == PlayMode::LoopOne {
            lemma_start_replaces_what_plays(handled, After::Tick, sink, post, step);
        } else {
            let next = choose|next: PlayerState| #[trigger]
                handled.moved_to_next(next) && next.started(After::Tick, sink, post, step);
            lemma_start_replaces_what_plays(next, After::Tick, sink, post, step);
        }
    }
}

/// Whatever command was carried out, a song that is started next has the output stopped first
/// exactly if it holds audio. The one exception is an output that was just opened anew, which
/// holds nothing: there the song that played is loaded again, paused at its position.
pub proof fn lemma_report_replaces_what_plays(
    pre: PlayerState,
    phase: Phase,
    report: Report,
    post: PlayerState,
    step: StepView,
)
    requires
        pre.answered(phase, report, post, step),
    ensures
        step matches StepView::Wait {
            command: CommandView::Start { stop_first, seek_to, pause_after_start, .. },
            ..
        } ==> match phase {
            Phase::ResumeRebind { position, .. } => report.ok && !stop_first && pause_after_start
                && seek_to == Some(position),
            _ => stop_first == (!report.sink.empty || report.sink.paused) && !pause_after_start,
        },
{
    let sink = report.sink;
    match phase {
        Phase::NewPlaybackDevice(then) => {
            if !pre.device_differs(report.device) {
                lemma_new_playback_replaces_what_plays(pre, then, sink, post, step);
            }
        },
        Phase::NewPlaybackRebind(then) => {
            let settled = if report.ok {
                pre.rebound(report.device)
            } else {
                pre
            };
            lemma_new_playback_replaces_what_plays(settled, then, sink, post, step);
        },
        Phase::Starting { song_id, after } => {
            if !report.ok {
                let marked = pre.with_source(song_id, TrackSource::Unplayable);
                lemma_failure_replaces_what_plays(marked, after, sink, post, step);
                lemma_failure_does_not_pause(marked, after, sink, post, step);
            }
        },
        Phase::TickDevice => {
            let pending = PlayerState { default_output_switch_pending: true, ..pre };
            if !pre.device_differs(report.device) {
                lemma_turn_replaces_what_plays(pre, sink, post, step);
                lemma_turn_does_not_pause(pre, sink, post, step);
            } else if sink.empty || sink.paused {
                lemma_turn_replaces_what_plays(pending, sink, post, step);
                lemma_turn_does_not_pause(pending, sink, post, step);
            }
        },
        Phase::TickPause => {
            let paused = pre.with_status(PlayStatus::Paused(sink.position));
            lemma_turn_replaces_what_plays(paused, sink, post, step);
            lemma_turn_does_not_pause(paused, sink, post, step);
        },
        _ => {},
    }
}

proof fn lemma_new_playback_replaces_what_plays(
    pre: PlayerState,
    then: ThenPlay,
    sink: SinkState,
    post: PlayerState,
    step: StepView,
)
    requires
        pre.new_playback_settled(then, sink, post, step),
    ensures
        step matches StepView::Wait {
            command: CommandView::Start { stop_first, pause_after_start, .. },
            ..
        } ==> stop_first == (!sink.empty || sink.paused) && !pause_after_start,
{
    match then {
        ThenPlay::Song(song_id) => {
            let selected = pre.with_pending_seek(None).with_current(song_id);
            lemma_start_replaces_what_plays(selected, After::Finish, sink, post, step);
            lemma_start_does_not_pause(selected, After::Finish, sink, post, step);
        },
        ThenPlay::Current(position) => {
            let from = pre.with_some_index();
            lemma_start_replaces_what_plays(from, After::Restore(position), sink, post, step);
            lemma_start_does_not_pause(from, After::Restore(position), sink, post, step);
        },
    }
}

pub proof fn lemma_start_does_not_pause(
    pre: PlayerState,
    after: After,
    sink: SinkState,
    post: PlayerState,
    step: StepView,
)
    requires
        pre.started(after, sink, post, step),
    ensures
        step matches StepView::Wait { command: CommandView::Start { pause_after_start, .. }, .. }
            ==> !pause_after_start,
    decreases pre.patience(), 1nat,
{
    if pre.current_source() matches Some(TrackSource::Unplayable) {
        lemma_failure_does_not_pause(pre, after, sink, post, step);
    }
}

proof fn lemma_failure_does_not_pause(
    pre: PlayerState,
    after: After,
    sink: SinkState,
    post: PlayerState,
    step: StepView,
)
    requires
        pre.failed(after, sink, post, step),
    ensures
        step matches StepView::Wait { command: CommandView::Start { pause_after_start, .. }, .. }
            ==> !pause_after_start,
    decreases pre.patience(), 0nat,
{
    let counted = pre.with_failure();
    if pre.has_patience() {
        let next = choose|next: PlayerState| #[trigger]
            counted.moved_to_next(next) && next.started(after, sink, post, step);
        lemma_patience_shrinks(pre, next);
        lemma_start_does_not_pause(next, after, sink, post, step);
    }
}

proof fn lemma_turn_does_not_pause(
    pre: PlayerState,
    sink: SinkState,
    post: PlayerState,
    step: StepView,
)
    requires
        pre.ticked(sink, post, step),
    ensures
        step matches StepView::Wait { command: CommandView::Start { pause_after_start, .. }, .. }
            ==> !pause_after_start,
{
    let handled = PlayerState { handled_finished_epoch: sink.finished_epoch, ..pre };
    if pre.playlist.len() == 0 {
    } else if pre.current_index is None {
        lemma_start_does_not_pause(pre.with_index(Some(0)), After::Tick, sink, post, step);
    } else if sink.paused {
    } else if pre.last_status is Downloading {
        if pre.current_source() is Some && !pre.current_requires_download() {
            lemma_start_does_not_pause(pre, After::Tick, sink, post, step);
        }
    } else if pre.has_finished(sink) {
        if pre.mode == PlayMode::LoopOne {
            lemma_start_does_not_pause(handled, After::Tick, sink, post, step);
        } else {
            let next = choose|next: PlayerState| #[trigger]
                handled.moved_to_next(next) && next.started(After::Tick, sink, post, step);
            lemma_start_does_not_pause(next, After::Tick, sink, post, step);
        }
    }
}

/// Once a song was started it plays: that is its status, it is the last one of the history, no
/// failure is counted, and the number of the playback is the one that was handed out with the
/// command. A position that was sought with success is not sought again; another one is kept.
pub proof fn lemma_started_song_plays(
    pre: PlayerState,
    song_id: u64,
    after: After,
    report: Report,
    post: PlayerState,
    step: StepView,
)
    requires
        pre.answered(Phase::Starting { song_id, after }, report, post, step),
        report.ok,
        after == After::Finish || after == After::Tick,
    ensures
        post.last_status == PlayStatus::Playing(report.sink.position),
        post.history.len() > 0 && post.history.last() == song_id,
        post.error_count == 0,
        post.active_playback_epoch == (if pre.active_playback_epoch == u64::MAX {
            1int
        } else {
            pre.active_playback_epoch + 1
        }),
        post.playlist == pre.playlist,
        post.current_index == pre.current_index,
        post.songs == pre.songs,
        after == After::Finish ==> post.pending_seek_after_start == (if report.seek_ok {
            None
        } else {
            pre.pending_seek_after_start
        }),
        step matches StepView::Wait { command, .. } ==> !(command is Start) && (
        command matches CommandView::Download { stop_first, .. } ==> !stop_first),
{
    lemma_predicted_songs(pre);
}

/// A song whose file cannot be opened is not tried again: it counts as not playable from then on,
/// and the song behind it is started in its place if that one is ready.
pub proof fn lemma_broken_song_is_given_up(
    pre: PlayerState,
    index: int,
    path: String,
    after: After,
    report: Report,
    post: PlayerState,
    step: StepView,
)
    requires
        pre.current_index == Some(index),
        0 <= index,
        index + 1 < pre.playlist.len(),
        pre.error_count + 1 < pre.playlist.len(),
        pre.error_count < usize::MAX,
        pre.answered(
            Phase::Starting { song_id: pre.playlist[index], after },
            report,
            post,
            step,
        ),
        !report.ok,
        pre.playlist[index + 1] != pre.playlist[index],
        pre.songs.contains_key(pre.playlist[index + 1]),
        pre.songs[pre.playlist[index + 1]] == TrackSource::Ready(path),
    ensures
        post.songs == pre.songs.insert(pre.playlist[index], TrackSource::Unplayable),
        post.current_index == Some(index + 1),
        post.error_count == pre.error_count + 1,
        step matches StepView::Wait {
            command: CommandView::Start { path: started, .. },
            phase,
        } && started == path && phase == (Phase::Starting {
            song_id: pre.playlist[index + 1],
            after,
        }),
{
    let sink = report.sink;
    let marked = pre.with_source(pre.playlist[index], TrackSource::Unplayable);
    let counted = marked.with_failure();
    let next = choose|next: PlayerState| #[trigger]
        counted.moved_to_next(next) && next.started(after, sink, post, step);
    lemma_next_song_is_the_one_behind(counted, next);
    lemma_ready_song_is_started(next, index + 1, path, after, sink, post, step);
}

/// A song that broke as the last of as many in a row as there are songs is not followed by
/// another one: the player stops.
pub proof fn lemma_player_gives_up(
    pre: PlayerState,
    song_id: u64,
    report: Report,
    post: PlayerState,
    step: StepView,
)
    requires
        pre.answered(Phase::Starting { song_id, after: After::Finish }, report, post, step),
        !report.ok,
        pre.error_count + 1 >= pre.playlist.len(),
    ensures
        post.last_status == PlayStatus::Stopped,
        post.current_index == pre.current_index,
        post.songs == pre.songs.insert(song_id, TrackSource::Unplayable),
        step is Done,
{
}

/// Audio that plays while the default device has become another one is paused, and the switch is
/// noted; the output is opened anew when playing goes on.
pub proof fn lemma_switch_of_device_pauses(
    pre: PlayerState,
    report: Report,
    post: PlayerState,
    step: StepView,
)
    requires
        pre.answered(Phase::TickDevice, report, post, step),
        report.device matches Some(name) && (pre.last_default_output_device_name matches Some(last)
            ==> last@ != name@),
        !report.sink.empty,
        !report.sink.paused,
    ensures
        post == (PlayerState { default_output_switch_pending: true, ..pre }),
        step == (StepView::Wait { command: CommandView::Pause, phase: Phase::TickPause }),
{
}

/// While the default device is the one in use, or is not known, nothing is noted: the turn goes
/// on as without the look at the device.
pub proof fn lemma_same_device_changes_nothing(
    pre: PlayerState,
    report: Report,
    post: PlayerState,
    step: StepView,
)
    requires
        pre.answered(Phase::TickDevice, report, post, step),
        report.device matches Some(name) ==> (pre.last_default_output_device_name matches Some(last)
            && last@ == name@),
    ensures
        pre.ticked(report.sink, post, step),
        post.default_output_switch_pending == pre.default_output_switch_pending,
        post.last_default_output_device_name == pre.last_default_output_device_name,
{
    lemma_turn_keeps_device(pre, report.sink, post, step);
}

proof fn lemma_turn_keeps_device(
    pre: PlayerState,
    sink: SinkState,
    post: PlayerState,
    step: StepView,
)
    requires
        pre.ticked(sink, post, step),
    ensures
        post.default_output_switch_pending == pre.default_output_switch_pending,
        post.last_default_output_device_name == pre.last_default_output_device_name,
{
    let handled = PlayerState { handled_finished_epoch: sink.finished_epoch, ..pre };
    if pre.playlist.len() == 0 {
    } else if pre.current_index is None {
        lemma_start_keeps_consistency(
            pre.with_index(Some(0)),
            After::Tick,
            sink,
            post,
            step,
        );
    } else if sink.paused {
    } else if pre.last_status is Downloading {
        if pre.current_source() is Some && !pre.current_requires_download() {
            lemma_start_keeps_consistency(
                pre,
                After::Tick,
                sink,
                post,
                step,
            );
        }
    } else if pre.has_finished(sink) {
        let next = if pre.mode == PlayMode::LoopOne {
            handled
        } else {
            choose|next: PlayerState| #[trigger]
                handled.moved_to_next(next) && next.started(After::Tick, sink, post, step)
        };
        lemma_start_keeps_consistency(next, After::Tick, sink, post, step);
    }
}

/// Going on while a switch of the device is pending opens the output anew. What is to be loaded
/// again, and where, is remembered: the current song if the output holds audio and its file is
/// there, at the position of the output.
pub proof fn lemma_going_on_follows_the_device(
    pre: PlayerState,
    then: ThenResume,
    sink: SinkState,
    post: PlayerState,
    step: StepView,
)
    requires
        (post, step) == pre.resuming(then, sink),
    ensures
        post == pre,
        !pre.default_output_switch_pending ==> step == (StepView::Wait {
            command: CommandView::QueryDefaultOutput,
            phase: Phase::ResumeDevice(then),
        }),
        pre.default_output_switch_pending ==> (step matches StepView::Wait { command, phase }
            && command == CommandView::RebindOutput && (phase matches Phase::ResumeRebind {
            restore,
            position,
            then: after,
        } && position == sink.position && after == then && (restore <==> (!sink.empty
            || sink.paused) && (pre.current_index matches Some(index) && 0 <= index
            < pre.playlist.len() && pre.songs.contains_key(pre.playlist[index])
            && pre.songs[pre.playlist[index]] is Ready)))),
{
}

/// Once the output was opened anew, the song that it held is loaded again, paused where it was,
/// and the new device is the one in use.
pub proof fn lemma_song_moves_to_the_new_device(
    pre: PlayerState,
    index: int,
    path: String,
    position: Position,
    then: ThenResume,
    report: Report,
    post: PlayerState,
    step: StepView,
)
    requires
        pre.answered(Phase::ResumeRebind { restore: true, position, then }, report, post, step),
        report.ok,
        pre.current_index == Some(index),
        0 <= index < pre.playlist.len(),
        pre.songs.contains_key(pre.playlist[index]),
        pre.songs[pre.playlist[index]] == TrackSource::Ready(path),
    ensures
        post == (PlayerState {
            last_default_output_device_name: report.device,
            default_output_switch_pending: false,
            ..pre
        }),
        step matches StepView::Wait {
            command: CommandView::Start { path: started, stop_first, seek_to, pause_after_start, .. },
            phase,
        } && started == path && seek_to == Some(position) && pause_after_start && !stop_first
            && phase == Phase::ResumeRestart(then),
{
}

/// Once that song is loaded, playing goes on.
pub proof fn lemma_moved_song_goes_on(
    pre: PlayerState,
    then: ThenResume,
    report: Report,
    post: PlayerState,
    step: StepView,
)
    requires
        pre.answered(Phase::ResumeRestart(then), report, post, step),
        !report.sink.empty,
    ensures
        step == (StepView::Wait { command: CommandView::Play, phase: Phase::Resuming }),
        report.ok ==> post.last_status == PlayStatus::Paused(report.sink.position)
            && post.active_playback_epoch != pre.active_playback_epoch
            && post.active_playback_epoch != 0,
        !report.ok ==> post.last_status == PlayStatus::Stopped && post.active_playback_epoch
            == pre.active_playback_epoch,
        post.playlist == pre.playlist,
        post.current_index == pre.current_index,
{
}

/// On the device in use, going on lets the output play. An output that holds nothing cannot go
/// on: then the current song is started, and the position where it was paused goes with it.
pub proof fn lemma_going_on_plays(
    pre: PlayerState,
    position: Option<Position>,
    report: Report,
    post: PlayerState,
    step: StepView,
)
    requires
        pre.answered(
            Phase::ResumeDevice(ThenResume::PlayOrStart(position)),
            report,
            post,
            step,
        ),
        report.device matches Some(name) ==> (pre.last_default_output_device_name matches Some(last)
            && last@ == name@),
        !pre.default_output_switch_pending,
    ensures
        post == pre,
        step == (if report.sink.empty {
            StepView::Wait {
                command: CommandView::QueryDefaultOutput,
                phase: Phase::NewPlaybackDevice(ThenPlay::Current(position)),
            }
        } else {
            StepView::Wait { command: CommandView::Play, phase: Phase::Resuming }
        }),
{
}

/// Once the output is settled, the current song is started, the first one if there is none, and
/// the position where it was paused is sought after that.
pub proof fn lemma_paused_song_is_started_where_it_was(
    pre: PlayerState,
    index: int,
    path: String,
    position: Option<Position>,
    report: Report,
    post: PlayerState,
    step: StepView,
)
    requires
        pre.answered(
            Phase::NewPlaybackDevice(ThenPlay::Current(position)),
            report,
            post,
            step,
        ),
        report.device matches Some(name) ==> (pre.last_default_output_device_name matches Some(last)
            && last@ == name@),
        pre.current_index == Some(index) || (pre.current_index is None && index == 0),
        0 <= index < pre.playlist.len(),
        pre.songs.contains_key(pre.playlist[index]),
        pre.songs[pre.playlist[index]] == TrackSource::Ready(path),
    ensures
        post == (PlayerState { current_index: Some(index), ..pre }),
        step matches StepView::Wait {
            command: CommandView::Start { path: started, stop_first, seek_to, .. },
            phase,
        } && started == path && seek_to == pre.pending_seek_after_start && stop_first == (
        !report.sink.empty || report.sink.paused) && phase == (Phase::Starting {
            song_id: pre.playlist[index],
            after: After::Restore(position),
        }),
{
    let from = pre.with_some_index();
    lemma_ready_song_is_started(
        from,
        index,
        path,
        After::Restore(position),
        report.sink,
        post,
        step,
    );
}

/// The position to go on from is that of a pause, where the output holds nothing.
pub proof fn lemma_position_to_go_on_from(pre: PlayerState, sink: SinkState, position: Position)
    ensures
        sink.empty && pre.last_status == PlayStatus::Paused(position) ==> pre.resume_position(sink)
            == Some(position),
        !sink.empty || !(pre.last_status is Paused) ==> pre.resume_position(sink) is None,
{
}

/// How often the default device is looked up: at every so many turns, as the settings say, and
/// at every turn if they say nothing.
pub proof fn lemma_device_is_looked_up_now_and_then(pre: PlayerState)
    requires
        pre.tick_counter < u64::MAX,
    ensures
        pre.runtime_config.default_output_check_every_ticks > 0 ==> (pre.checks_device() <==> (
        pre.tick_counter + 1) % (pre.runtime_config.default_output_check_every_ticks as int) == 0),
        pre.runtime_config.default_output_check_every_ticks == 0 ==> pre.checks_device(),
{
}

/// Audio that was paused because the device changed is taken for paused in the same turn.
pub proof fn lemma_pause_for_the_device_lasts(
    pre: PlayerState,
    report: Report,
    post: PlayerState,
    step: StepView,
)
    requires
        pre.answered(Phase::TickPause, report, post, step),
        0 < pre.playlist.len(),
        pre.current_index is Some,
        report.sink.paused,
    ensures
        post.last_status == PlayStatus::Paused(report.sink.position),
        post.current_index == pre.current_index,
        post.playlist == pre.playlist,
        post.default_output_switch_pending == pre.default_output_switch_pending,
{
}

/// A new playback on an output that was opened anew is on the new device.
pub proof fn lemma_new_device_is_in_use(
    pre: PlayerState,
    then: ThenPlay,
    report: Report,
    post: PlayerState,
    step: StepView,
)
    requires
        pre.answered(Phase::NewPlaybackRebind(then), report, post, step),
    ensures
        report.ok ==> post.last_default_output_device_name == report.device
            && !post.default_output_switch_pending,
        !report.ok ==> post.last_default_output_device_name == pre.last_default_output_device_name
            && post.default_output_switch_pending == pre.default_output_switch_pending,
{
    let settled = if report.ok {
        pre.rebound(report.device)
    } else {
        pre
    };
    let sink = report.sink;
    match then {
        ThenPlay::Song(song_id) => {
            let selected = settled.with_pending_seek(None).with_current(song_id);
            lemma_start_keeps_consistency(
                selected,
                After::Finish,
                sink,
                post,
                step,
            );
        },
        ThenPlay::Current(position) => {
            let from = settled.with_some_index();
            lemma_start_keeps_consistency(
                from,
                After::Restore(position),
                sink,
                post,
                step,
            );
        },
    }
}

/// An output that could not be opened anew, or that held no song to load again, goes on as it is:
/// what it holds plays, and an empty one is given the current song where that was asked for.
pub proof fn lemma_going_on_without_a_song_to_load(
    pre: PlayerState,
    restore: bool,
    position: Position,
    then: ThenResume,
    report: Report,
    post: PlayerState,
    step: StepView,
)
    requires
        pre.answered(Phase::ResumeRebind { restore, position, then }, report, post, step),
        !report.ok || !restore,
    ensures
        post == (if report.ok {
            PlayerState {
                last_default_output_device_name: report.device,
                default_output_switch_pending: false,
                ..pre
            }
        } else {
            pre
        }),
        !report.sink.empty || then == ThenResume::Play ==> step == (StepView::Wait {
            command: CommandView::Play,
            phase: Phase::Resuming,
        }),
        report.sink.empty ==> (then matches ThenResume::PlayOrStart(wanted) ==> step == (
        if post.default_output_switch_pending {
            StepView::Wait {
                command: CommandView::RebindOutput,
                phase: Phase::NewPlaybackRebind(ThenPlay::Current(wanted)),
            }
        } else {
            StepView::Wait {
                command: CommandView::QueryDefaultOutput,
                phase: Phase::NewPlaybackDevice(ThenPlay::Current(wanted)),
            }
        })),
{
}

/// On the device in use, a paused output just plays; on another device it is opened anew first,
/// and the song that it holds is to be loaded again at its position.
pub proof fn lemma_paused_output_goes_on(
    pre: PlayerState,
    index: int,
    report: Report,
    post: PlayerState,
    step: StepView,
)
    requires
        pre.answered(Phase::ResumeDevice(ThenResume::Play), report, post, step),
        pre.current_index == Some(index),
        0 <= index < pre.playlist.len(),
        pre.songs.contains_key(pre.playlist[index]),
        pre.songs[pre.playlist[index]] is Ready,
        report.sink.paused,
    ensures
        post == pre,
        (report.device matches Some(name) ==> (pre.last_default_output_device_name matches Some(
            last,
        ) && last@ == name@)) ==> step == (StepView::Wait {
            command: CommandView::Play,
            phase: Phase::Resuming,
        }),
        (report.device matches Some(name) && (pre.last_default_output_device_name matches Some(last)
            ==> last@ != name@)) ==> step == (StepView::Wait {
            command: CommandView::RebindOutput,
            phase: Phase::ResumeRebind {
                restore: true,
                position: report.sink.position,
                then: ThenResume::Play,
            },
        }),
{
}

} // verus!
