//! How the operations of the player unfold, step by step, as contracts speak of it.
//!
//! A pair of a state and a step is where the player is left and what it asks for. Only the
//! order of a shuffled playlist is open; what goes through it is a relation.
use vstd::prelude::*;

use crate::player::order::{ascending, is_reordering, with_played};
use crate::player::state::{
    has_audio, After, CommandView, Phase, PlayStatus, PlayerState, Position, Report, SinkState,
    StepView, ThenPlay, ThenResume, TrackSource,
};

verus! {

/// Passing over a song uses up patience.
pub proof fn lemma_patience_shrinks(pre: PlayerState, next: PlayerState)
    requires
        pre.has_patience(),
        pre.with_failure().moved_to_next(next),
    ensures
        next.patience() < pre.patience(),
{
    let counted = pre.with_failure();
    if counted.wraps_shuffled() {
        let order = choose|order: Seq<u64>| #[trigger]
            is_reordering(counted.backup(), order) && next == (PlayerState {
                playlist: order,
                current_index: Some(0),
                ..counted
            });
        lemma_reordering_keeps_length(counted.backup(), order);
    }
}

/// A list has as many songs in any order.
pub proof fn lemma_reordering_keeps_length(base: Seq<u64>, order: Seq<u64>)
    requires
        is_reordering(base, order),
    ensures
        order.len() == base.len(),
{
    base.to_multiset_ensures();
    order.to_multiset_ensures();
}

/// The command that loads a song into the audio output.
pub open spec fn start_command(
    path: String,
    epoch: u64,
    stop_first: bool,
    seek_to: Option<Position>,
    pause_after_start: bool,
) -> CommandView {
    CommandView::Start { path, epoch, stop_first, seek_to, pause_after_start }
}

impl PlayerState {
    pub open spec fn with_status(self, status: PlayStatus) -> PlayerState {
        PlayerState { last_status: status, ..self }
    }

    pub open spec fn with_index(self, index: Option<int>) -> PlayerState {
        PlayerState { current_index: index, ..self }
    }

    pub open spec fn with_pending_seek(self, position: Option<Position>) -> PlayerState {
        PlayerState { pending_seek_after_start: position, ..self }
    }

    pub open spec fn with_source(self, song_id: u64, source: TrackSource) -> PlayerState {
        PlayerState { songs: self.songs.insert(song_id, source), ..self }
    }

    /// Whether `post` is the player once the same became known of all these songs.
    pub open spec fn all_sourced(
        self,
        song_ids: Seq<u64>,
        source: TrackSource,
        post: PlayerState,
    ) -> bool {
        &&& post == (PlayerState { songs: post.songs, ..self })
        &&& forall|song_id: u64|
            #![trigger post.source_of(song_id)]
            post.source_of(song_id) == (if song_ids.contains(song_id) {
                source
            } else {
                self.source_of(song_id)
            })
    }

    /// The first song is the current one if there was none.
    pub open spec fn with_some_index(self) -> PlayerState {
        match self.current_index {
            Some(_) => self,
            None => self.with_index(Some(0)),
        }
    }

    /// The operation is over.
    pub open spec fn done(self, sink: SinkState) -> (PlayerState, StepView) {
        (self, StepView::Done(self.status(sink)))
    }

    /// The audio output is asked to seek; a position that was kept for later is dropped.
    pub open spec fn seeking(self, position: Position) -> (PlayerState, StepView) {
        (
            self.with_pending_seek(None),
            StepView::Wait { command: CommandView::Seek { position }, phase: Phase::Seeking },
        )
    }

    // ---- the end of a turn of the event loop ----

    /// Whether the state is due to be written to disk after this many ticks.
    pub open spec fn persist_is_due(self) -> bool {
        &&& self.runtime_config.persist_every_ticks > 0
        &&& self.tick_counter % self.runtime_config.persist_every_ticks == 0
    }

    /// The tick is counted, the interface gets its frame, and the state is written when due.
    pub open spec fn tick_finished(self, sink: SinkState) -> (PlayerState, StepView) {
        let counted = PlayerState {
            tick_counter: if self.tick_counter == u64::MAX {
                u64::MAX
            } else {
                (self.tick_counter + 1) as u64
            },
            ..self
        };
        (
            counted,
            StepView::Frame {
                frame: counted.frame(sink),
                persist: if counted.persist_is_due() {
                    Some(counted.persisted(sink))
                } else {
                    None
                },
            },
        )
    }

    /// A seek that waits for a loaded song is tried again.
    pub open spec fn tick_tail(self, sink: SinkState) -> (PlayerState, StepView) {
        match self.pending_seek_after_start {
            Some(position) if self.status(sink).spec_is_loaded() => (
                self.with_pending_seek(None),
                StepView::Wait {
                    command: CommandView::Seek { position },
                    phase: Phase::TickSeek(position),
                },
            ),
            _ => self.tick_finished(sink),
        }
    }

    // ---- starting the current song ----

    /// What follows once the current song was asked to start.
    pub open spec fn continued(self, after: After, sink: SinkState) -> (PlayerState, StepView) {
        let loaded = self.status(sink).spec_is_loaded();
        match after {
            After::Finish => self.done(sink),
            After::Seek(position) => if loaded {
                self.seeking(position)
            } else {
                self.with_pending_seek(Some(position)).done(sink)
            },
            After::Restore(position) => match position {
                Some(position) if loaded => self.seeking(position),
                _ => self.done(sink),
            },
            After::Tick => self.tick_tail(sink),
        }
    }

    /// The current song is asked to start, or why it is not: a song that is missing is
    /// downloaded with those to fetch ahead, and one that is on its way is waited for.
    pub open spec fn launched(self, after: After, sink: SinkState) -> (PlayerState, StepView) {
        match self.current_song() {
            None => self.with_status(PlayStatus::Stopped).continued(after, sink),
            Some(song_id) => match self.source_of(song_id) {
                TrackSource::Missing => {
                    let waiting = self.with_source(song_id, TrackSource::Missing).with_status(
                        PlayStatus::Downloading,
                    );
                    (
                        waiting,
                        StepView::Wait {
                            command: CommandView::Download {
                                song_ids: ascending(seq![song_id] + waiting.predicted()),
                                stop_first: has_audio(sink),
                            },
                            phase: Phase::Settling(after),
                        },
                    )
                },
                TrackSource::Downloading => {
                    let waiting = self.with_status(PlayStatus::Downloading);
                    if has_audio(sink) {
                        (
                            waiting,
                            StepView::Wait {
                                command: CommandView::Stop,
                                phase: Phase::Settling(after),
                            },
                        )
                    } else {
                        waiting.continued(after, sink)
                    }
                },
                TrackSource::Unplayable => self.with_status(PlayStatus::Stopped).continued(
                    after,
                    sink,
                ),
                TrackSource::Ready(path) => (
                    self,
                    StepView::Wait {
                        command: start_command(
                            path,
                            self.next_epoch(),
                            has_audio(sink),
                            self.pending_seek_after_start,
                            false,
                        ),
                        phase: Phase::Starting { song_id, after },
                    },
                ),
            },
        }
    }

    /// The current song could not be played.
    pub open spec fn with_failure(self) -> PlayerState {
        PlayerState {
            error_count: if self.error_count == usize::MAX {
                usize::MAX
            } else {
                (self.error_count + 1) as usize
            },
            ..self
        }
    }

    /// Whether another song is tried when the current one fails: fewer songs in a row have
    /// failed then than the playlist has.
    pub open spec fn has_patience(self) -> bool {
        self.error_count < usize::MAX && self.error_count + 1 < self.playlist.len()
    }

    /// A bound on how many songs may still be passed over before the player gives up.
    pub open spec fn patience(self) -> int {
        let longest = if self.backup().len() > self.playlist.len() {
            self.backup().len() as int
        } else {
            self.playlist.len() as int
        };
        if longest > self.error_count {
            longest - self.error_count
        } else {
            0
        }
    }

    /// Whether `post` and `step` are where the player gets when the current song starts. A song
    /// that cannot be played is passed over, until as many failed in a row as there are songs.
    pub open spec fn started(
        self,
        after: After,
        sink: SinkState,
        post: PlayerState,
        step: StepView,
    ) -> bool
        decreases self.patience(), 1nat,
    {
        if self.current_source() matches Some(TrackSource::Unplayable) {
            self.failed(after, sink, post, step)
        } else {
            (post, step) == self.launched(after, sink)
        }
    }

    /// Whether `post` and `step` are where the player gets when the current song cannot be
    /// played: the next song is started, or the player stops.
    pub open spec fn failed(
        self,
        after: After,
        sink: SinkState,
        post: PlayerState,
        step: StepView,
    ) -> bool
        decreases self.patience(), 0nat,
    {
        let counted = self.with_failure();
        proof {
            assert forall|next: PlayerState| #[trigger]
                counted.moved_to_next(next) && self.has_patience() implies next.patience() < self.patience() by {
                lemma_patience_shrinks(self, next);
            }
        }
        if self.has_patience() {
            exists|next: PlayerState| #[trigger]
                counted.moved_to_next(next) && next.started(after, sink, post, step)
        } else {
            (post, step) == counted.with_status(PlayStatus::Stopped).continued(after, sink)
        }
    }

    /// The song that was asked to start plays: it enters the history, and songs are fetched
    /// ahead. A position that could not be sought yet is kept.
    pub open spec fn playing(
        self,
        song_id: u64,
        after: After,
        seek_ok: bool,
        sink: SinkState,
    ) -> (PlayerState, StepView) {
        let begun = PlayerState {
            active_playback_epoch: self.next_epoch(),
            error_count: 0,
            history: with_played(self.history, song_id, self.runtime_config.history_capacity),
            pending_seek_after_start: if seek_ok {
                None
            } else {
                self.pending_seek_after_start
            },
            last_status: PlayStatus::Playing(sink.position),
            ..self
        };
        if begun.predicted().len() > 0 {
            (
                begun,
                StepView::Wait {
                    command: CommandView::Download {
                        song_ids: begun.predicted(),
                        stop_first: false,
                    },
                    phase: Phase::Settling(after),
                },
            )
        } else {
            begun.continued(after, sink)
        }
    }

    // ---- following the default output device ----

    /// The output is on the default device again.
    pub open spec fn rebound(self, device: Option<String>) -> PlayerState {
        PlayerState {
            last_default_output_device_name: device,
            default_output_switch_pending: false,
            ..self
        }
    }

    /// Before a new playback: the output is rebound if a switch is pending; otherwise the
    /// device is looked up.
    pub open spec fn new_playback(self, then: ThenPlay) -> (PlayerState, StepView) {
        (
            self,
            if self.default_output_switch_pending {
                StepView::Wait {
                    command: CommandView::RebindOutput,
                    phase: Phase::NewPlaybackRebind(then),
                }
            } else {
                StepView::Wait {
                    command: CommandView::QueryDefaultOutput,
                    phase: Phase::NewPlaybackDevice(then),
                }
            },
        )
    }

    /// Whether `post` and `step` are where a new playback gets once its output is settled.
    pub open spec fn new_playback_settled(
        self,
        then: ThenPlay,
        sink: SinkState,
        post: PlayerState,
        step: StepView,
    ) -> bool {
        match then {
            ThenPlay::Song(song_id) => self.with_pending_seek(None).with_current(song_id).started(
                After::Finish,
                sink,
                post,
                step,
            ),
            ThenPlay::Current(position) => self.with_some_index().started(
                After::Restore(position),
                sink,
                post,
                step,
            ),
        }
    }

    /// The output is rebound before a playback goes on; a song that it holds is to be loaded
    /// again.
    pub open spec fn resume_rebind(self, then: ThenResume, sink: SinkState) -> (
        PlayerState,
        StepView,
    ) {
        (
            self,
            StepView::Wait {
                command: CommandView::RebindOutput,
                phase: Phase::ResumeRebind {
                    restore: has_audio(sink) && (self.current_source() matches Some(
                        TrackSource::Ready(_),
                    )),
                    position: sink.position,
                    then,
                },
            },
        )
    }

    /// Before a playback goes on: the output is rebound if a switch is pending; otherwise the
    /// device is looked up.
    pub open spec fn resuming(self, then: ThenResume, sink: SinkState) -> (PlayerState, StepView) {
        if self.default_output_switch_pending {
            self.resume_rebind(then, sink)
        } else {
            (
                self,
                StepView::Wait {
                    command: CommandView::QueryDefaultOutput,
                    phase: Phase::ResumeDevice(then),
                },
            )
        }
    }

    /// The output plays, or the current song starts if the output holds none.
    pub open spec fn resume_settled(self, then: ThenResume, sink: SinkState) -> (
        PlayerState,
        StepView,
    ) {
        match then {
            ThenResume::PlayOrStart(position) if sink.empty => self.new_playback(
                ThenPlay::Current(position),
            ),
            _ => (
                self,
                StepView::Wait { command: CommandView::Play, phase: Phase::Resuming },
            ),
        }
    }

    /// The output is rebound: the song that it held is loaded again, paused where it was.
    pub open spec fn resume_rebound(
        self,
        restore: bool,
        position: Position,
        then: ThenResume,
        report: Report,
    ) -> (PlayerState, StepView) {
        if !report.ok {
            self.resume_settled(then, report.sink)
        } else {
            let rebound = self.rebound(report.device);
            match rebound.current_source() {
                Some(TrackSource::Ready(path)) if restore => (
                    rebound,
                    StepView::Wait {
                        command: start_command(
                            path,
                            rebound.next_epoch(),
                            false,
                            Some(position),
                            true,
                        ),
                        phase: Phase::ResumeRestart(then),
                    },
                ),
                _ => rebound.resume_settled(then, report.sink),
            }
        }
    }

    // ---- the event loop ----

    /// Whether this turn of the event loop looks up the default output device.
    pub open spec fn checks_device(self) -> bool {
        let interval = if self.runtime_config.default_output_check_every_ticks == 0 {
            1u64
        } else {
            self.runtime_config.default_output_check_every_ticks
        };
        let next_tick = if self.tick_counter == u64::MAX {
            u64::MAX
        } else {
            (self.tick_counter + 1) as u64
        };
        next_tick % interval == 0
    }

    /// Whether `post` and `step` are where the player gets in a turn of the event loop once the
    /// output device was looked at. In this order: without songs it stops; without a current
    /// song it starts the first one; a paused output stays paused; a song that is waited for
    /// starts when its download ended; the next song starts when a song came to its end, the
    /// same one if one song is looped; and otherwise the position is followed.
    pub open spec fn ticked(self, sink: SinkState, post: PlayerState, step: StepView) -> bool {
        let source = self.current_source();
        if self.playlist.len() == 0 {
            (post, step) == self.with_index(None).with_status(PlayStatus::Stopped).tick_tail(sink)
        } else if self.current_index is None {
            self.with_index(Some(0)).started(After::Tick, sink, post, step)
        } else if sink.paused {
            (post, step) == self.with_status(PlayStatus::Paused(sink.position)).tick_tail(sink)
        } else if self.last_status is Downloading {
            if source is None {
                (post, step) == self.with_status(PlayStatus::Stopped).tick_tail(sink)
            } else if self.current_requires_download() {
                (post, step) == self.tick_tail(sink)
            } else {
                self.started(After::Tick, sink, post, step)
            }
        } else if self.has_finished(sink) {
            let handled = PlayerState { handled_finished_epoch: sink.finished_epoch, ..self };
            if self.mode is LoopOne {
                handled.started(After::Tick, sink, post, step)
            } else {
                exists|next: PlayerState| #[trigger]
                    handled.moved_to_next(next) && next.started(After::Tick, sink, post, step)
            }
        } else if !sink.empty {
            (post, step) == self.with_status(PlayStatus::Playing(sink.position)).tick_tail(sink)
        } else {
            (post, step) == self.tick_tail(sink)
        }
    }

    /// Whether `post` and `step` are where the player gets once the event loop knows the
    /// default output device. Audio that plays on another device is paused.
    pub open spec fn device_checked(
        self,
        device: Option<String>,
        sink: SinkState,
        post: PlayerState,
        step: StepView,
    ) -> bool {
        if self.device_differs(device) {
            let pending = PlayerState { default_output_switch_pending: true, ..self };
            if !sink.empty && !sink.paused {
                &&& post == pending
                &&& step == (StepView::Wait {
                    command: CommandView::Pause,
                    phase: Phase::TickPause,
                })
            } else {
                pending.ticked(sink, post, step)
            }
        } else {
            self.ticked(sink, post, step)
        }
    }

    // ---- what the operations begin with ----

    /// Whether `post` and `step` are where the player gets when the next song is asked for.
    pub open spec fn skipped_ahead(
        self,
        sink: SinkState,
        post: PlayerState,
        step: StepView,
    ) -> bool {
        exists|next: PlayerState| #[trigger]
            self.with_pending_seek(None).moved_to_next(next) && next.started(
                After::Finish,
                sink,
                post,
                step,
            )
    }

    /// Whether `post` and `step` are where the player gets when the previous song is asked for.
    pub open spec fn skipped_back(
        self,
        sink: SinkState,
        post: PlayerState,
        step: StepView,
    ) -> bool {
        self.with_pending_seek(None).with_index(self.prev_index()).started(
            After::Finish,
            sink,
            post,
            step,
        )
    }

    /// Whether `post` and `step` are where the player gets when a position is asked for.
    pub open spec fn seek_begun(
        self,
        position: Position,
        sink: SinkState,
        post: PlayerState,
        step: StepView,
    ) -> bool {
        if self.playlist.len() == 0 {
            (post, step) == self.with_index(None).with_status(PlayStatus::Stopped).done(sink)
        } else if sink.empty {
            self.with_some_index().started(After::Seek(position), sink, post, step)
        } else {
            (post, step) == self.with_some_index().seeking(position)
        }
    }

    /// Whether `post` and `step` are where the player gets when the output is to be paused.
    pub open spec fn pause_begun(self, sink: SinkState, post: PlayerState, step: StepView) -> bool {
        if self.playlist.len() == 0 {
            (post, step) == self.with_status(PlayStatus::Stopped).done(sink)
        } else {
            (post, step) == (
                self,
                StepView::Wait { command: CommandView::Pause, phase: Phase::Pausing },
            )
        }
    }

    /// Whether `post` and `step` are where the player gets when it is to go on.
    pub open spec fn resume_begun(
        self,
        sink: SinkState,
        post: PlayerState,
        step: StepView,
    ) -> bool {
        if self.playlist.len() == 0 {
            (post, step) == self.with_status(PlayStatus::Stopped).done(sink)
        } else if self.current_requires_download() {
            self.with_pending_seek(self.resume_position(sink)).started(
                After::Finish,
                sink,
                post,
                step,
            )
        } else {
            (post, step) == self.resuming(
                ThenResume::PlayOrStart(self.resume_position(sink)),
                sink,
            )
        }
    }

    /// Whether `post` and `step` are where the player gets when it is to pause or go on, whichever
    /// it is not doing.
    pub open spec fn toggle_begun(
        self,
        sink: SinkState,
        post: PlayerState,
        step: StepView,
    ) -> bool {
        if self.playlist.len() == 0 {
            (post, step) == self.with_status(PlayStatus::Stopped).done(sink)
        } else if self.current_requires_download() {
            self.with_pending_seek(self.resume_position(sink)).started(
                After::Finish,
                sink,
                post,
                step,
            )
        } else if sink.paused {
            (post, step) == self.resuming(ThenResume::Play, sink)
        } else if sink.empty {
            (post, step) == self.new_playback(ThenPlay::Current(self.resume_position(sink)))
        } else {
            (post, step) == (
                self,
                StepView::Wait { command: CommandView::Pause, phase: Phase::Pausing },
            )
        }
    }

    /// Whether `post` and `step` are where the player gets in a turn of the event loop.
    pub open spec fn turn_begun(self, sink: SinkState, post: PlayerState, step: StepView) -> bool {
        if self.checks_device() {
            (post, step) == (
                self,
                StepView::Wait {
                    command: CommandView::QueryDefaultOutput,
                    phase: Phase::TickDevice,
                },
            )
        } else {
            self.ticked(sink, post, step)
        }
    }

    // ---- reports ----

    /// Whether `post` and `step` are where the player gets when a command that it asked for in
    /// this phase was carried out.
    pub open spec fn answered(
        self,
        phase: Phase,
        report: Report,
        post: PlayerState,
        step: StepView,
    ) -> bool {
        let sink = report.sink;
        match phase {
            Phase::NewPlaybackDevice(then) => if self.device_differs(report.device) {
                (post, step) == (
                    self,
                    StepView::Wait {
                        command: CommandView::RebindOutput,
                        phase: Phase::NewPlaybackRebind(then),
                    },
                )
            } else {
                self.new_playback_settled(then, sink, post, step)
            },
            Phase::NewPlaybackRebind(then) => if report.ok {
                self.rebound(report.device).new_playback_settled(then, sink, post, step)
            } else {
                self.new_playback_settled(then, sink, post, step)
            },
            Phase::ResumeDevice(then) => if self.device_differs(report.device) {
                (post, step) == self.resume_rebind(then, sink)
            } else {
                (post, step) == self.resume_settled(then, sink)
            },
            Phase::ResumeRebind { restore, position, then } => (post, step) == self.resume_rebound(
                restore,
                position,
                then,
                report,
            ),
            Phase::ResumeRestart(then) => if report.ok {
                (post, step) == PlayerState {
                    active_playback_epoch: self.next_epoch(),
                    last_status: PlayStatus::Paused(sink.position),
                    ..self
                }.resume_settled(then, sink)
            } else {
                (post, step) == self.with_status(PlayStatus::Stopped).resume_settled(then, sink)
            },
            Phase::Resuming => (post, step) == self.with_status(
                PlayStatus::Playing(sink.position),
            ).done(sink),
            Phase::Pausing => (post, step) == self.with_status(
                PlayStatus::Paused(sink.position),
            ).done(sink),
            Phase::Seeking => (post, step) == self.with_status(
                if sink.paused {
                    PlayStatus::Paused(sink.position)
                } else {
                    PlayStatus::Playing(sink.position)
                },
            ).done(sink),
            Phase::Starting { song_id, after } => if report.ok {
                (post, step) == self.playing(song_id, after, report.seek_ok, sink)
            } else {
                self.with_source(song_id, TrackSource::Unplayable).failed(after, sink, post, step)
            },
            Phase::Settling(after) => (post, step) == self.continued(after, sink),
            Phase::TickDevice => self.device_checked(report.device, sink, post, step),
            Phase::TickPause => self.with_status(PlayStatus::Paused(sink.position)).ticked(
                sink,
                post,
                step,
            ),
            Phase::TickSeek(position) => if report.ok {
                (post, step) == self.tick_finished(sink)
            } else {
                (post, step) == self.with_pending_seek(Some(position)).tick_finished(sink)
            },
        }
    }
}

} // verus!
