//! What the buttons do: choosing a song, skipping, pausing, going on and seeking.
use vstd::prelude::*;

use crate::player::flow::lemma_patience_shrinks;
use crate::player::laws::lemma_start_keeps_consistency;
use crate::player::order::{lemma_has_position, lemma_position_of};
use crate::player::promises::output::{lemma_start_does_not_pause, lemma_start_replaces_what_plays};
use crate::player::promises::walk::{
    lemma_awaited_song_is_waited_for, lemma_missing_song_is_downloaded,
    lemma_next_song_is_the_one_behind, lemma_previous_song_is_the_one_before,
    lemma_ready_song_is_started,
};
use crate::player::state::{
    After, CommandView, Phase, PlayStatus, PlayerState, Position, Report, ShuffleState, SinkState,
    StepView, ThenPlay, ThenResume, TrackSource,
};

verus! {

/// Playing a chosen song asks for the default output device first, or for the output to be
/// opened anew where a switch of the device is pending; nothing changes before that.
pub proof fn lemma_play_settles_the_output(
    pre: PlayerState,
    song_id: u64,
    post: PlayerState,
    step: StepView,
)
    requires
        (post, step) == pre.new_playback(ThenPlay::Song(song_id)),
    ensures
        post == pre,
        step == (if pre.default_output_switch_pending {
            StepView::Wait {
                command: CommandView::RebindOutput,
                phase: Phase::NewPlaybackRebind(ThenPlay::Song(song_id)),
            }
        } else {
            StepView::Wait {
                command: CommandView::QueryDefaultOutput,
                phase: Phase::NewPlaybackDevice(ThenPlay::Song(song_id)),
            }
        }),
{
}

/// If the default device turns out to be another one, the output is opened anew before a new
/// playback, and nothing else happens.
pub proof fn lemma_other_device_is_bound_first(
    pre: PlayerState,
    then: ThenPlay,
    report: Report,
    post: PlayerState,
    step: StepView,
)
    requires
        pre.answered(Phase::NewPlaybackDevice(then), report, post, step),
        report.device matches Some(name) && (pre.last_default_output_device_name matches Some(last)
            ==> last@ != name@),
    ensures
        post == pre,
        step == (StepView::Wait {
            command: CommandView::RebindOutput,
            phase: Phase::NewPlaybackRebind(then),
        }),
{
}

/// Once the output is settled, a chosen song is the current one. A song that was in the list is
/// found there, at its first place, and the list stays as it is; a song that was not is put in
/// right behind the song that was current, or at the end if there was none.
pub proof fn lemma_chosen_song_is_current(
    pre: PlayerState,
    song_id: u64,
    report: Report,
    post: PlayerState,
    step: StepView,
)
    requires
        pre.consistent(),
        pre.answered(Phase::NewPlaybackRebind(ThenPlay::Song(song_id)), report, post, step) || (
        pre.answered(Phase::NewPlaybackDevice(ThenPlay::Song(song_id)), report, post, step) && (
        report.device matches Some(name) ==> (pre.last_default_output_device_name matches Some(last)
            && last@ == name@))),
        pre.songs.contains_key(song_id) ==> pre.songs[song_id] != TrackSource::Unplayable,
    ensures
        post.current_index matches Some(index) && 0 <= index < post.playlist.len()
            && post.playlist[index] == song_id,
        post.pending_seek_after_start is None,
        pre.playlist.contains(song_id) ==> {
            &&& post.playlist == pre.playlist
            &&& post.original_playlist == pre.original_playlist
            &&& forall|i: int| 0 <= i < post.current_index->0 ==> post.playlist[i] != song_id
        },
        !pre.playlist.contains(song_id) ==> (match pre.current_index {
            Some(index) => {
                &&& post.current_index == Some(index + 1)
                &&& post.playlist == pre.playlist.take(index + 1) + seq![song_id]
                    + pre.playlist.skip(index + 1)
            },
            None => {
                &&& post.current_index == Some(pre.playlist.len() as int)
                &&& post.playlist == pre.playlist.push(song_id)
            },
        }),
        pre.songs.contains_key(song_id) && pre.songs[song_id] is Ready ==> {
            &&& step matches StepView::Wait {
                command: CommandView::Start { path, stop_first, seek_to, pause_after_start, .. },
                phase,
            } && {
                &&& TrackSource::Ready(path) == pre.songs[song_id]
                &&& seek_to is None
                &&& !pause_after_start
                &&& stop_first == (!report.sink.empty || report.sink.paused)
                &&& phase == (Phase::Starting { song_id, after: After::Finish })
            }
        },
        !pre.songs.contains_key(song_id) || pre.songs[song_id] == TrackSource::Missing ==> {
            &&& post.last_status == PlayStatus::Downloading
            &&& step matches StepView::Wait {
                command: CommandView::Download { song_ids, stop_first },
                ..
            } && song_ids.contains(song_id) && stop_first == (!report.sink.empty
                || report.sink.paused)
        },
        pre.songs.contains_key(song_id) && pre.songs[song_id] == TrackSource::Downloading
            ==> post.last_status == PlayStatus::Downloading,
{
    let rebinds = pre.answered(
        Phase::NewPlaybackRebind(ThenPlay::Song(song_id)),
        report,
        post,
        step,
    );
    let settled = if rebinds && report.ok {
        pre.rebound(report.device)
    } else {
        pre
    };
    let sink = report.sink;
    assert(settled.new_playback_settled(ThenPlay::Song(song_id), sink, post, step));
    let selected = settled.with_pending_seek(None).with_current(song_id);
    if pre.playlist.contains(song_id) {
        lemma_has_position(pre.playlist, song_id);
    } else if pre.current_index is None {
        assert(pre.playlist.take(pre.playlist.len() as int) + seq![song_id] + pre.playlist.skip(
            pre.playlist.len() as int,
        ) =~= pre.playlist.push(song_id));
    }
    let index = selected.current_index->0;
    assert(selected.playlist[index] == song_id);
    if pre.songs.contains_key(song_id) && pre.songs[song_id] is Ready {
        let path = pre.songs[song_id]->Ready_0;
        lemma_ready_song_is_started(selected, index, path, After::Finish, sink, post, step);
    } else if pre.songs.contains_key(song_id) && pre.songs[song_id] is Downloading {
        lemma_awaited_song_is_waited_for(selected, index, After::Finish, sink, post, step);
    } else {
        lemma_missing_song_is_downloaded(selected, index, After::Finish, sink, post, step);
    }
}

/// Skipping ahead leads to the song behind the current one, from its beginning: if it is ready it
/// is started in place of what plays, if it is missing it is downloaded.
pub proof fn lemma_skipping_ahead_starts_the_song_behind(
    pre: PlayerState,
    index: int,
    path: String,
    sink: SinkState,
    post: PlayerState,
    step: StepView,
)
    requires
        pre.skipped_ahead(sink, post, step),
        pre.current_index == Some(index),
        0 <= index,
        index + 1 < pre.playlist.len(),
    ensures
        pre.songs.contains_key(pre.playlist[index + 1]) && pre.songs[pre.playlist[index + 1]]
            == TrackSource::Ready(path) ==> {
            &&& post == (PlayerState {
                current_index: Some(index + 1),
                pending_seek_after_start: None,
                ..pre
            })
            &&& step matches StepView::Wait {
                command: CommandView::Start {
                    path: started,
                    stop_first,
                    seek_to,
                    pause_after_start,
                    ..
                },
                phase,
            } && {
                &&& started == path
                &&& seek_to is None
                &&& !pause_after_start
                &&& stop_first == (!sink.empty || sink.paused)
                &&& phase == (Phase::Starting {
                    song_id: pre.playlist[index + 1],
                    after: After::Finish,
                })
            }
        },
        !pre.songs.contains_key(pre.playlist[index + 1]) || pre.songs[pre.playlist[index + 1]]
            == TrackSource::Missing ==> {
            &&& post.current_index == Some(index + 1)
            &&& post.playlist == pre.playlist
            &&& post.pending_seek_after_start is None
            &&& post.last_status == PlayStatus::Downloading
            &&& step matches StepView::Wait {
                command: CommandView::Download { song_ids, stop_first },
                ..
            } && song_ids.contains(pre.playlist[index + 1]) && stop_first == (!sink.empty
                || sink.paused)
        },
{
    let unsought = pre.with_pending_seek(None);
    let next = choose|next: PlayerState| #[trigger]
        unsought.moved_to_next(next) && next.started(After::Finish, sink, post, step);
    lemma_next_song_is_the_one_behind(unsought, next);
    let song_id = pre.playlist[index + 1];
    if next.songs.contains_key(song_id) && next.songs[song_id] == TrackSource::Ready(path) {
        lemma_ready_song_is_started(next, index + 1, path, After::Finish, sink, post, step);
    } else if !next.songs.contains_key(song_id) || next.songs[song_id] == TrackSource::Missing {
        lemma_missing_song_is_downloaded(next, index + 1, After::Finish, sink, post, step);
    }
}

/// Skipping back leads to the song before the current one in the same way.
pub proof fn lemma_skipping_back_starts_the_song_before(
    pre: PlayerState,
    index: int,
    path: String,
    sink: SinkState,
    post: PlayerState,
    step: StepView,
)
    requires
        pre.skipped_back(sink, post, step),
        pre.current_index == Some(index),
        0 < index < pre.playlist.len(),
        pre.songs.contains_key(pre.playlist[index - 1]),
        pre.songs[pre.playlist[index - 1]] == TrackSource::Ready(path),
    ensures
        post == (PlayerState {
            current_index: Some(index - 1),
            pending_seek_after_start: None,
            ..pre
        }),
        step matches StepView::Wait {
            command: CommandView::Start { path: started, stop_first, seek_to, pause_after_start, .. },
            phase,
        } && {
            &&& started == path
            &&& seek_to is None
            &&& !pause_after_start
            &&& stop_first == (!sink.empty || sink.paused)
            &&& phase == (Phase::Starting {
                song_id: pre.playlist[index - 1],
                after: After::Finish,
            })
        },
{
    lemma_previous_song_is_the_one_before(pre);
    let from = pre.with_pending_seek(None).with_index(Some(index - 1));
    lemma_ready_song_is_started(from, index - 1, path, After::Finish, sink, post, step);
}

/// Once the output was paused or let go on, that is the status, at the position of the output;
/// nothing else changes.
pub proof fn lemma_pausing_and_going_on(
    pre: PlayerState,
    phase: Phase,
    report: Report,
    post: PlayerState,
    step: StepView,
)
    requires
        pre.answered(phase, report, post, step),
    ensures
        phase == Phase::Pausing ==> post == (PlayerState {
            last_status: PlayStatus::Paused(report.sink.position),
            ..pre
        }) && step is Done,
        phase == Phase::Resuming ==> post == (PlayerState {
            last_status: PlayStatus::Playing(report.sink.position),
            ..pre
        }) && step is Done,
        phase == Phase::Seeking ==> post == (PlayerState {
            last_status: if report.sink.paused {
                PlayStatus::Paused(report.sink.position)
            } else {
                PlayStatus::Playing(report.sink.position)
            },
            ..pre
        }) && step is Done,
        pre.playlist.len() > 0 && (phase == Phase::Pausing || phase == Phase::Resuming || phase
            == Phase::Seeking) && report.sink.paused ==> step == StepView::Done(
            PlayStatus::Paused(report.sink.position),
        ),
        pre.playlist.len() > 0 && (phase == Phase::Pausing || phase == Phase::Resuming || phase
            == Phase::Seeking) && !report.sink.paused && !report.sink.empty
            ==> step == StepView::Done(PlayStatus::Playing(report.sink.position)),
{
}

/// A seek that was tried in the event loop and failed is kept; one that succeeded is not.
pub proof fn lemma_failed_seek_is_kept(
    pre: PlayerState,
    position: Position,
    report: Report,
    post: PlayerState,
    step: StepView,
)
    requires
        pre.answered(Phase::TickSeek(position), report, post, step),
    ensures
        post.pending_seek_after_start == (if report.ok {
            pre.pending_seek_after_start
        } else {
            Some(position)
        }),
        post.playlist == pre.playlist,
        post.current_index == pre.current_index,
        post.last_status == pre.last_status,
        step is Frame,
{
}

/// A position that was asked for while no song was loaded is not lost: if the current song is
/// ready it is sought once the song plays, and otherwise it waits for the song.
pub proof fn lemma_wanted_position_is_not_lost(
    pre: PlayerState,
    index: int,
    position: Position,
    sink: SinkState,
    post: PlayerState,
    step: StepView,
)
    requires
        pre.started(After::Seek(position), sink, post, step),
        pre.current_index == Some(index),
        0 <= index < pre.playlist.len(),
        sink.empty,
        !sink.paused,
    ensures
        pre.songs.contains_key(pre.playlist[index]) && pre.songs[pre.playlist[index]] is Ready
            ==> (step matches StepView::Wait { command: CommandView::Start { .. }, phase } && phase
            == (Phase::Starting { song_id: pre.playlist[index], after: After::Seek(position) })),
        pre.songs.contains_key(pre.playlist[index]) && pre.songs[pre.playlist[index]]
            == TrackSource::Downloading ==> post.pending_seek_after_start == Some(position),
        !pre.songs.contains_key(pre.playlist[index]) || pre.songs[pre.playlist[index]]
            == TrackSource::Missing ==> (step matches StepView::Wait {
            command: CommandView::Download { .. },
            phase,
        } && phase == Phase::Settling(After::Seek(position))),
{
    let song_id = pre.playlist[index];
    if pre.songs.contains_key(song_id) && pre.songs[song_id] is Ready {
        let path = pre.songs[song_id]->Ready_0;
        lemma_ready_song_is_started(pre, index, path, After::Seek(position), sink, post, step);
    }
}

/// Once the download that a seek waited for was begun, the position waits for the song; and once
/// the song plays, the position is sought.
pub proof fn lemma_wanted_position_is_sought(
    pre: PlayerState,
    position: Position,
    restored: bool,
    report: Report,
    post: PlayerState,
    step: StepView,
)
    requires
        pre.playlist.len() > 0,
        pre.answered(
            Phase::Settling(
                if restored {
                    After::Restore(Some(position))
                } else {
                    After::Seek(position)
                },
            ),
            report,
            post,
            step,
        ),
    ensures
        report.sink.paused || !report.sink.empty ==> {
            &&& post == (PlayerState { pending_seek_after_start: None, ..pre })
            &&& step == (StepView::Wait {
                command: CommandView::Seek { position },
                phase: Phase::Seeking,
            })
        },
        !report.sink.paused && report.sink.empty && (pre.last_status == PlayStatus::Downloading
            || pre.last_status == PlayStatus::Stopped) ==> {
            &&& post == (PlayerState {
                pending_seek_after_start: if restored {
                    pre.pending_seek_after_start
                } else {
                    Some(position)
                },
                ..pre
            })
            &&& step == StepView::Done(pre.last_status)
        },
{
}

/// What goes on after a song was started and nothing is fetched ahead: the position that was
/// wanted is sought at once.
pub proof fn lemma_started_song_goes_on_where_it_was(
    pre: PlayerState,
    song_id: u64,
    position: Position,
    restored: bool,
    report: Report,
    post: PlayerState,
    step: StepView,
)
    requires
        pre.playlist.len() > 0,
        report.ok,
        !report.sink.empty,
        pre.answered(
            Phase::Starting {
                song_id,
                after: if restored {
                    After::Restore(Some(position))
                } else {
                    After::Seek(position)
                },
            },
            report,
            post,
            step,
        ),
    ensures
        match step {
            StepView::Wait { command: CommandView::Seek { position: sought }, phase } => sought
                == position && phase == Phase::Seeking && post.pending_seek_after_start is None,
            StepView::Wait { command: CommandView::Download { stop_first, .. }, phase } =>
                !stop_first && phase == Phase::Settling(
                    if restored {
                        After::Restore(Some(position))
                    } else {
                        After::Seek(position)
                    },
                ),
            _ => false,
        },
        post.last_status == PlayStatus::Playing(report.sink.position),
{
}

/// Skipping never leaves a position waiting for another song, and whatever is started replaces
/// what plays. Without songs nothing is started.
pub proof fn lemma_skipping_starts_afresh(
    pre: PlayerState,
    sink: SinkState,
    post: PlayerState,
    step: StepView,
)
    requires
        pre.skipped_ahead(sink, post, step) || pre.skipped_back(sink, post, step),
        pre.current_index matches Some(index) ==> 0 <= index,
    ensures
        post.pending_seek_after_start is None,
        step matches StepView::Wait {
            command: CommandView::Start { stop_first, seek_to, pause_after_start, .. },
            ..
        } ==> stop_first == (!sink.empty || sink.paused) && seek_to is None && !pause_after_start,
        step matches StepView::Wait { phase: Phase::Starting { after, .. }, .. } ==> after
            == After::Finish,
        pre.playlist.len() == 0 && pre.shuffle_state == ShuffleState::Disabled ==> step is Done,
        post.mode == pre.mode,
        post.shuffle_state == pre.shuffle_state,
        post.original_playlist == pre.original_playlist,
        post.history == pre.history,
{
    let unsought = pre.with_pending_seek(None);
    let from = if pre.skipped_ahead(sink, post, step) {
        choose|next: PlayerState| #[trigger]
            unsought.moved_to_next(next) && next.started(After::Finish, sink, post, step)
    } else {
        unsought.with_index(pre.prev_index())
    };
    lemma_start_replaces_what_plays(from, After::Finish, sink, post, step);
    lemma_start_does_not_pause(from, After::Finish, sink, post, step);
    lemma_unsought_start(from, sink, post, step);
    lemma_start_keeps_consistency(from, After::Finish, sink, post, step);
}

proof fn lemma_unsought_start(pre: PlayerState, sink: SinkState, post: PlayerState, step: StepView)
    requires
        pre.started(After::Finish, sink, post, step),
        pre.pending_seek_after_start is None,
    ensures
        post.pending_seek_after_start is None,
        step matches StepView::Wait { command: CommandView::Start { seek_to, .. }, .. }
            ==> seek_to is None,
        step matches StepView::Wait { phase: Phase::Starting { after, .. }, .. } ==> after
            == After::Finish,
    decreases pre.patience(), 1nat,
{
    if pre.current_source() matches Some(TrackSource::Unplayable) {
        let counted = pre.with_failure();
        if pre.has_patience() {
            let next = choose|next: PlayerState| #[trigger]
                counted.moved_to_next(next) && next.started(After::Finish, sink, post, step);
            lemma_patience_shrinks(pre, next);
            lemma_unsought_start(next, sink, post, step);
        }
    }
}

/// A position that is asked for while the output holds audio is sought there, and no other
/// position waits then. Without songs the player is stopped.
pub proof fn lemma_seeking_in_what_plays(
    pre: PlayerState,
    position: Position,
    sink: SinkState,
    post: PlayerState,
    step: StepView,
)
    requires
        pre.seek_begun(position, sink, post, step),
    ensures
        pre.playlist.len() > 0 && !sink.empty ==> {
            &&& step == (StepView::Wait {
                command: CommandView::Seek { position },
                phase: Phase::Seeking,
            })
            &&& post == (PlayerState {
                pending_seek_after_start: None,
                current_index: if pre.current_index is None {
                    Some(0int)
                } else {
                    pre.current_index
                },
                ..pre
            })
        },
        pre.playlist.len() == 0 ==> {
            &&& step == StepView::Done(PlayStatus::Stopped)
            &&& post.current_index is None
            &&& post.last_status == PlayStatus::Stopped
        },
{
}

/// A position that is asked for while the output holds nothing goes with the song that is started
/// or waited for: the current one, or the first one if there is none.
pub proof fn lemma_seeking_before_a_song_is_loaded(
    pre: PlayerState,
    index: int,
    position: Position,
    sink: SinkState,
    post: PlayerState,
    step: StepView,
)
    requires
        pre.seek_begun(position, sink, post, step),
        sink.empty,
        !sink.paused,
        0 <= index < pre.playlist.len(),
        pre.current_index == Some(index) || (pre.current_index is None && index == 0),
    ensures
        pre.songs.contains_key(pre.playlist[index]) && pre.songs[pre.playlist[index]] is Ready ==> (
        step matches StepView::Wait { command: CommandView::Start { path, .. }, phase }
            && TrackSource::Ready(path) == pre.songs[pre.playlist[index]] && phase
            == (Phase::Starting { song_id: pre.playlist[index], after: After::Seek(position) })),
        pre.songs.contains_key(pre.playlist[index]) && pre.songs[pre.playlist[index]]
            == TrackSource::Downloading ==> post.pending_seek_after_start == Some(position),
        !pre.songs.contains_key(pre.playlist[index]) || pre.songs[pre.playlist[index]]
            == TrackSource::Missing ==> (step matches StepView::Wait {
            command: CommandView::Download { song_ids, .. },
            phase,
        } && song_ids.contains(pre.playlist[index]) && phase == Phase::Settling(
            After::Seek(position),
        )),
{
    let from = pre.with_some_index();
    lemma_wanted_position_is_not_lost(from, index, position, sink, post, step);
    let song_id = pre.playlist[index];
    if pre.songs.contains_key(song_id) && pre.songs[song_id] is Ready {
        let path = pre.songs[song_id]->Ready_0;
        lemma_ready_song_is_started(from, index, path, After::Seek(position), sink, post, step);
    } else if !pre.songs.contains_key(song_id) || pre.songs[song_id] == TrackSource::Missing {
        lemma_missing_song_is_downloaded(from, index, After::Seek(position), sink, post, step);
    }
}

/// Pausing pauses the output; without songs the player is stopped.
pub proof fn lemma_pausing(pre: PlayerState, sink: SinkState, post: PlayerState, step: StepView)
    requires
        pre.pause_begun(sink, post, step),
    ensures
        pre.playlist.len() > 0 ==> post == pre && step == (StepView::Wait {
            command: CommandView::Pause,
            phase: Phase::Pausing,
        }),
        pre.playlist.len() == 0 ==> post.last_status == PlayStatus::Stopped && step
            == StepView::Done(PlayStatus::Stopped),
{
}

/// The one button for both pauses what plays and lets what is paused go on. Where the output holds
/// nothing, the current song is started anew, and the position where it was paused goes with it.
pub proof fn lemma_pause_button(
    pre: PlayerState,
    index: int,
    sink: SinkState,
    post: PlayerState,
    step: StepView,
)
    requires
        pre.toggle_begun(sink, post, step),
        pre.current_index == Some(index),
        0 <= index < pre.playlist.len(),
        pre.songs.contains_key(pre.playlist[index]),
        pre.songs[pre.playlist[index]] is Ready,
        !pre.default_output_switch_pending,
    ensures
        post == pre,
        sink.paused ==> step == (StepView::Wait {
            command: CommandView::QueryDefaultOutput,
            phase: Phase::ResumeDevice(ThenResume::Play),
        }),
        !sink.paused && !sink.empty ==> step == (StepView::Wait {
            command: CommandView::Pause,
            phase: Phase::Pausing,
        }),
        !sink.paused && sink.empty ==> step == (StepView::Wait {
            command: CommandView::QueryDefaultOutput,
            phase: Phase::NewPlaybackDevice(
                ThenPlay::Current(
                    match pre.last_status {
                        PlayStatus::Paused(position) => Some(position),
                        _ => None,
                    },
                ),
            ),
        }),
{
}

/// Going on asks for the device first, and takes the position with it where a song was paused
/// that the output does not hold.
pub proof fn lemma_going_on(
    pre: PlayerState,
    index: int,
    sink: SinkState,
    post: PlayerState,
    step: StepView,
)
    requires
        pre.resume_begun(sink, post, step),
        pre.current_index == Some(index),
        0 <= index < pre.playlist.len(),
        pre.songs.contains_key(pre.playlist[index]),
        pre.songs[pre.playlist[index]] is Ready,
        !pre.default_output_switch_pending,
    ensures
        post == pre,
        step == (StepView::Wait {
            command: CommandView::QueryDefaultOutput,
            phase: Phase::ResumeDevice(
                ThenResume::PlayOrStart(
                    match pre.last_status {
                        PlayStatus::Paused(position) => if sink.empty {
                            Some(position)
                        } else {
                            None
                        },
                        _ => None,
                    },
                ),
            ),
        }),
{
}

/// Going on with a song that is not there yet downloads it; the position where it was paused waits
/// for it.
pub proof fn lemma_going_on_with_a_missing_song(
    pre: PlayerState,
    index: int,
    position: Position,
    sink: SinkState,
    post: PlayerState,
    step: StepView,
)
    requires
        pre.resume_begun(sink, post, step) || pre.toggle_begun(sink, post, step),
        pre.current_index == Some(index),
        0 <= index < pre.playlist.len(),
        pre.songs.contains_key(pre.playlist[index]) ==> pre.songs[pre.playlist[index]]
            == TrackSource::Missing,
        pre.last_status == PlayStatus::Paused(position),
        sink.empty,
    ensures
        post.pending_seek_after_start == Some(position),
        post.last_status == PlayStatus::Downloading,
        post.current_index == pre.current_index,
        step matches StepView::Wait { command: CommandView::Download { song_ids, .. }, .. }
            && song_ids.contains(pre.playlist[index]),
{
    let from = pre.with_pending_seek(Some(position));
    lemma_missing_song_is_downloaded(from, index, After::Finish, sink, post, step);
}

/// Without songs neither pausing nor going on does anything but stop the player.
pub proof fn lemma_nothing_goes_on_without_songs(
    pre: PlayerState,
    sink: SinkState,
    post: PlayerState,
    step: StepView,
)
    requires
        pre.resume_begun(sink, post, step) || pre.toggle_begun(sink, post, step),
        pre.playlist.len() == 0,
    ensures
        post == (PlayerState { last_status: PlayStatus::Stopped, ..pre }),
        step == StepView::Done(PlayStatus::Stopped),
{
}

/// A chosen song that the list lacked is put into the old order of a shuffled list, too: right
/// behind the song that was current, or at the end if there was none.
pub proof fn lemma_chosen_song_stands_in_the_old_order(
    pre: PlayerState,
    song_id: u64,
    original: Seq<u64>,
    place: int,
)
    requires
        pre.consistent(),
        !pre.playlist.contains(song_id),
        pre.original_playlist == Some(original),
    ensures
        pre.current_index is None ==> pre.with_current(song_id).original_playlist == Some(
            original.push(song_id),
        ),
        pre.current_index matches Some(index) ==> 0 <= place < original.len() && original[place]
            == pre.playlist[index] && (forall|i: int|
            0 <= i < place ==> original[i] != original[place]) ==> pre.with_current(
            song_id,
        ).original_playlist == Some(
            original.take(place + 1) + seq![song_id] + original.skip(place + 1),
        ),
{
    assert(original.take(original.len() as int) + seq![song_id] + original.skip(
        original.len() as int,
    ) =~= original.push(song_id));
    if let Some(index) = pre.current_index {
        if 0 <= place < original.len() && original[place] == pre.playlist[index] && (forall|i: int|
            0 <= i < place ==> original[i] != original[place]) {
            lemma_position_of(original, original[place], place);
        }
    }
}

/// Going on with a song that is on its way waits for it, and the position where it was paused
/// waits with it.
pub proof fn lemma_going_on_with_an_awaited_song(
    pre: PlayerState,
    index: int,
    position: Position,
    sink: SinkState,
    post: PlayerState,
    step: StepView,
)
    requires
        pre.resume_begun(sink, post, step) || pre.toggle_begun(sink, post, step),
        pre.current_index == Some(index),
        0 <= index < pre.playlist.len(),
        pre.songs.contains_key(pre.playlist[index]),
        pre.songs[pre.playlist[index]] == TrackSource::Downloading,
        pre.last_status == PlayStatus::Paused(position),
        sink.empty,
        !sink.paused,
    ensures
        post == (PlayerState {
            pending_seek_after_start: Some(position),
            last_status: PlayStatus::Downloading,
            ..pre
        }),
        step == StepView::Done(PlayStatus::Downloading),
{
    let from = pre.with_pending_seek(Some(position));
    lemma_awaited_song_is_waited_for(from, index, After::Finish, sink, post, step);
}

} // verus!
