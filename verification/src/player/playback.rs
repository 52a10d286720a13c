//! Starting, pausing and following the playback.
use vstd::prelude::*;

use crate::player::flow::lemma_patience_shrinks;
use crate::player::laws::{
    fits, lemma_next_keeps_consistency, lemma_report_keeps_consistency, lemma_start_fits,
    lemma_start_keeps_consistency, lemma_tick_fits, lemma_tick_keeps_consistency, step_fits,
};
use crate::player::lists::{copy_songs, sort_songs};
use crate::player::persist::{PersistedPlayStatus, PlayerPersistState};
use crate::player::promises::control::{
    lemma_skipping_ahead_starts_the_song_behind,
    lemma_skipping_back_starts_the_song_before,
};
use crate::player::promises::output::{
    lemma_start_replaces_what_plays,
    lemma_turn_replaces_what_plays,
};
use crate::player::promises::walk::lemma_end_of_a_song_leads_to_the_next;
use crate::player::state::{has_audio, CommandView, PlayerState, StepView};
use crate::player::{
    After, Command, Phase, PlayMode, PlayOrderState, PlayStatus, PlayerCore, PlayerStateFrame,
    Position, Report, SinkState, Step, ThenPlay, ThenResume, TrackSource,
};

verus! {

/// Whether an audio output has something to stop.
fn sink_has_audio(sink: SinkState) -> (audio: bool)
    ensures
        audio == has_audio(sink),
{
    !sink.empty || sink.paused
}

impl PlayerCore {
    /// What the player is doing.
    pub fn status(&self, sink: SinkState) -> (status: PlayStatus)
        ensures
            status == self@.status(sink),
    {
        if self.playlist.len() == 0 {
            PlayStatus::Stopped
        } else if sink.paused {
            PlayStatus::Paused(sink.position)
        } else if !sink.empty {
            PlayStatus::Playing(sink.position)
        } else {
            self.last_status
        }
    }

    /// What the interface is shown.
    fn state_frame(&self, sink: SinkState) -> (frame: PlayerStateFrame)
        ensures
            frame == self@.frame(sink),
    {
        PlayerStateFrame {
            play_status: self.status(sink),
            play_order: PlayOrderState {
                play_mode: self.mode,
                shuffle_state: self.shuffle_state,
            },
        }
    }

    /// The operation is over.
    fn finish(&self, sink: SinkState) -> (step: Step)
        ensures
            (self@, step@) == self@.done(sink),
    {
        Step::Done(self.status(sink))
    }

    /// Asks the audio output to seek.
    fn apply_seek(&mut self, position: Position) -> (step: Step)
        ensures
            (final(self)@, step@) == old(self)@.seeking(position),
    {
        self.pending_seek_after_start = None;
        Step::Wait { command: Command::Seek { position }, phase: Phase::Seeking }
    }

    /// The state that is written to disk.
    pub fn persist_state(&self, sink: SinkState) -> (state: PlayerPersistState)
        ensures
            state@ == self@.persisted(sink),
    {
        let mut history: Vec<u64> = Vec::new();
        let mut i: usize = 0;
        while i < self.history.len()
            invariant
                i <= self.history.len(),
                history@ == self.history@.take(i as int),
            decreases self.history.len() - i,
        {
            history.push(self.history[i]);
            assert(history@ =~= self.history@.take(i + 1));
            i += 1;
        }
        assert(self.history@.take(i as int) =~= self.history@);
        PlayerPersistState {
            playlist: copy_songs(&self.playlist),
            current_index: self.current_index,
            mode: self.mode,
            shuffle_state: self.shuffle_state,
            original_playlist: match &self.original_playlist {
                Some(original) => Some(copy_songs(original)),
                None => None,
            },
            history,
            status: match self.status(sink) {
                PlayStatus::Playing(position) => PersistedPlayStatus::Playing(position.as_millis()),
                PlayStatus::Paused(position) => PersistedPlayStatus::Paused(position.as_millis()),
                PlayStatus::Downloading => PersistedPlayStatus::Downloading,
                PlayStatus::Stopped => PersistedPlayStatus::Stopped,
            },
        }
    }

    /// Counts the tick and ends the turn of the event loop.
    fn finish_tick(&mut self, sink: SinkState) -> (step: Step)
        ensures
            (final(self)@, step@) == old(self)@.tick_finished(sink),
    {
        self.tick_counter = self.tick_counter.saturating_add(1);
        let every = self.runtime_config.persist_every_ticks;
        let persist = if every > 0 && self.tick_counter % every == 0 {
            Some(self.persist_state(sink))
        } else {
            None
        };
        Step::Frame { frame: self.state_frame(sink), persist }
    }

    /// Tries a seek again that waits for a loaded song, and ends the turn of the event loop.
    fn end_tick(&mut self, sink: SinkState) -> (step: Step)
        ensures
            (final(self)@, step@) == old(self)@.tick_tail(sink),
    {
        if let Some(position) = self.pending_seek_after_start {
            if self.status(sink).is_loaded() {
                self.pending_seek_after_start = None;
                return Step::Wait {
                    command: Command::Seek { position },
                    phase: Phase::TickSeek(position),
                };
            }
        }
        self.finish_tick(sink)
    }

    /// Goes on once the current song was asked to start.
    fn go_on(&mut self, after: After, sink: SinkState) -> (step: Step)
        ensures
            (final(self)@, step@) == old(self)@.continued(after, sink),
    {
        match after {
            After::Finish => self.finish(sink),
            After::Seek(position) => {
                if self.status(sink).is_loaded() {
                    self.apply_seek(position)
                } else {
                    self.pending_seek_after_start = Some(position);
                    self.finish(sink)
                }
            },
            After::Restore(position) => {
                if let Some(position) = position {
                    if self.status(sink).is_loaded() {
                        return self.apply_seek(position);
                    }
                }
                self.finish(sink)
            },
            After::Tick => self.end_tick(sink),
        }
    }

    /// The number of the next playback.
    fn following_epoch(&self) -> (epoch: u64)
        ensures
            epoch == self@.next_epoch(),
    {
        let epoch = self.active_playback_epoch.wrapping_add(1);
        if epoch == 0 {
            1
        } else {
            epoch
        }
    }

    /// Starts the current song. Songs that cannot be played are passed over.
    pub(crate) fn start_current(&mut self, after: After, sink: SinkState) -> (step: Step)
        ensures
            old(self)@.started(after, sink, final(self)@, step@),
        decreases old(self)@.patience(), 1nat,
    {
        match self.current_track_source() {
            None => {
                self.last_status = PlayStatus::Stopped;
                self.go_on(after, sink)
            },
            Some((song_id, TrackSource::Missing)) => {
                self.songs.insert(song_id, TrackSource::Missing);
                self.last_status = PlayStatus::Downloading;
                let mut ahead = self.predicted_download_ids();
                let mut wanted: Vec<u64> = Vec::new();
                wanted.push(song_id);
                wanted.append(&mut ahead);
                assert(wanted@ =~= seq![song_id] + self@.predicted());
                Step::Wait {
                    command: Command::Download {
                        song_ids: sort_songs(&wanted),
                        stop_first: sink_has_audio(sink),
                    },
                    phase: Phase::Settling(after),
                }
            },
            Some((_, TrackSource::Downloading)) => {
                self.last_status = PlayStatus::Downloading;
                if sink_has_audio(sink) {
                    Step::Wait { command: Command::Stop, phase: Phase::Settling(after) }
                } else {
                    self.go_on(after, sink)
                }
            },
            Some((_, TrackSource::Unplayable)) => self.advance_after_failure(after, sink),
            Some((song_id, TrackSource::Ready(path))) => Step::Wait {
                command: Command::Start {
                    path,
                    epoch: self.following_epoch(),
                    stop_first: sink_has_audio(sink),
                    seek_to: self.pending_seek_after_start,
                    pause_after_start: false,
                },
                phase: Phase::Starting { song_id, after },
            },
        }
    }

    /// Goes on after the current song failed: with the next one, or not at all once as many
    /// failed in a row as there are songs.
    fn advance_after_failure(&mut self, after: After, sink: SinkState) -> (step: Step)
        ensures
            old(self)@.failed(after, sink, final(self)@, step@),
        decreases old(self)@.patience(), 0nat,
    {
        self.error_count = self.error_count.saturating_add(1);
        let ghost counted = self@;
        assert(counted == old(self)@.with_failure());
        if self.error_count < self.playlist.len() {
            self.move_to_next();
            proof {
                lemma_patience_shrinks(old(self)@, self@);
            }
            assert(counted.moved_to_next(self@));
            self.start_current(after, sink)
        } else {
            self.last_status = PlayStatus::Stopped;
            self.go_on(after, sink)
        }
    }

    /// Takes over that a song plays which was asked to start.
    fn note_playing(
        &mut self,
        song_id: u64,
        after: After,
        seek_ok: bool,
        sink: SinkState,
    ) -> (step: Step)
        ensures
            (final(self)@, step@) == old(self)@.playing(song_id, after, seek_ok, sink),
    {
        self.active_playback_epoch = self.following_epoch();
        self.error_count = 0;
        self.push_history(song_id);
        if seek_ok {
            self.pending_seek_after_start = None;
        }
        self.last_status = PlayStatus::Playing(sink.position);
        let ahead = self.predicted_download_ids();
        if ahead.len() > 0 {
            Step::Wait {
                command: Command::Download { song_ids: ahead, stop_first: false },
                phase: Phase::Settling(after),
            }
        } else {
            self.go_on(after, sink)
        }
    }

    /// Whether the known default output device differs from the one that is in use.
    fn is_other_device(&self, device: &Option<String>) -> (differs: bool)
        ensures
            differs == self@.device_differs(*device),
    {
        match device {
            Some(name) => match &self.last_default_output_device_name {
                Some(last) => !(*last == *name),
                None => true,
            },
            None => false,
        }
    }

    fn note_rebound(&mut self, device: Option<String>)
        ensures
            final(self)@ == old(self)@.rebound(device),
    {
        self.last_default_output_device_name = device;
        self.default_output_switch_pending = false;
    }

    /// Settles the output before a new playback.
    fn prepare_new_playback(&self, then: ThenPlay) -> (step: Step)
        ensures
            (self@, step@) == self@.new_playback(then),
    {
        if self.default_output_switch_pending {
            Step::Wait { command: Command::RebindOutput, phase: Phase::NewPlaybackRebind(then) }
        } else {
            Step::Wait {
                command: Command::QueryDefaultOutput,
                phase: Phase::NewPlaybackDevice(then),
            }
        }
    }

    /// Begins a new playback on the settled output.
    fn begin_new_playback(&mut self, then: ThenPlay, sink: SinkState) -> (step: Step)
        ensures
            old(self)@.new_playback_settled(then, sink, final(self)@, step@),
    {
        match then {
            ThenPlay::Song(song_id) => {
                self.pending_seek_after_start = None;
                self.select_song(song_id);
                self.start_current(After::Finish, sink)
            },
            ThenPlay::Current(position) => {
                if self.current_index.is_none() {
                    self.current_index = Some(0);
                }
                self.start_current(After::Restore(position), sink)
            },
        }
    }

    fn rebind_for_resume(&self, then: ThenResume, sink: SinkState) -> (step: Step)
        ensures
            (self@, step@) == self@.resume_rebind(then, sink),
    {
        let ready = matches!(self.current_track_source(), Some((_, TrackSource::Ready(_))));
        Step::Wait {
            command: Command::RebindOutput,
            phase: Phase::ResumeRebind {
                restore: sink_has_audio(sink) && ready,
                position: sink.position,
                then,
            },
        }
    }

    /// Settles the output before a playback goes on.
    fn prepare_resume(&self, then: ThenResume, sink: SinkState) -> (step: Step)
        ensures
            (self@, step@) == self@.resuming(then, sink),
    {
        if self.default_output_switch_pending {
            self.rebind_for_resume(then, sink)
        } else {
            Step::Wait { command: Command::QueryDefaultOutput, phase: Phase::ResumeDevice(then) }
        }
    }

    /// Lets the playback go on on the settled output.
    fn continue_playback(&self, then: ThenResume, sink: SinkState) -> (step: Step)
        ensures
            (self@, step@) == self@.resume_settled(then, sink),
    {
        if let ThenResume::PlayOrStart(position) = then {
            if sink.empty {
                return self.prepare_new_playback(ThenPlay::Current(position));
            }
        }
        Step::Wait { command: Command::Play, phase: Phase::Resuming }
    }

    /// Loads the song again that the output held before it was rebound.
    fn restore_after_rebind(
        &mut self,
        restore: bool,
        position: Position,
        then: ThenResume,
        report: Report,
    ) -> (step: Step)
        ensures
            (final(self)@, step@) == old(self)@.resume_rebound(restore, position, then, report),
    {
        let sink = report.sink;
        if !report.ok {
            return self.continue_playback(then, sink);
        }
        self.note_rebound(report.device);
        if restore {
            if let Some((_, TrackSource::Ready(path))) = self.current_track_source() {
                return Step::Wait {
                    command: Command::Start {
                        path,
                        epoch: self.following_epoch(),
                        stop_first: false,
                        seek_to: Some(position),
                        pause_after_start: true,
                    },
                    phase: Phase::ResumeRestart(then),
                };
            }
        }
        self.continue_playback(then, sink)
    }

    /// Whether the active playback has come to its natural end. It says so once only.
    pub fn take_finished_playback_event(&mut self, sink: SinkState) -> (finished: bool)
        ensures
            finished == old(self)@.has_finished(sink),
            final(self)@ == old(self)@.end_taken(sink),
            old(self)@.consistent() ==> final(self)@.consistent(),
    {
        if !matches!(self.last_status, PlayStatus::Playing(_)) {
            return false;
        }
        let finished_epoch = sink.finished_epoch;
        if finished_epoch == 0 || finished_epoch != self.active_playback_epoch || finished_epoch
            == self.handled_finished_epoch {
            return false;
        }
        self.handled_finished_epoch = finished_epoch;
        true
    }

    /// The turn of the event loop once the output device was looked at.
    fn tick(&mut self, sink: SinkState) -> (step: Step)
        ensures
            old(self)@.ticked(sink, final(self)@, step@),
    {
        if self.playlist.len() == 0 {
            self.current_index = None;
            self.last_status = PlayStatus::Stopped;
            return self.end_tick(sink);
        }
        if self.current_index.is_none() {
            self.current_index = Some(0);
            return self.start_current(After::Tick, sink);
        }
        if sink.paused {
            self.last_status = PlayStatus::Paused(sink.position);
            return self.end_tick(sink);
        }
        if matches!(self.last_status, PlayStatus::Downloading) {
            return match self.current_track_source() {
                None => {
                    self.last_status = PlayStatus::Stopped;
                    self.end_tick(sink)
                },
                Some((_, TrackSource::Missing)) | Some((_, TrackSource::Downloading)) => {
                    self.end_tick(sink)
                },
                Some(_) => self.start_current(After::Tick, sink),
            };
        }
        if self.take_finished_playback_event(sink) {
            let ghost handled = self@;
            if self.mode != PlayMode::LoopOne {
                self.move_to_next();
                assert(handled.moved_to_next(self@));
            }
            return self.start_current(After::Tick, sink);
        }
        if !sink.empty {
            self.last_status = PlayStatus::Playing(sink.position);
        }
        self.end_tick(sink)
    }

    /// The turn of the event loop once the default output device is known.
    fn check_device(&mut self, device: Option<String>, sink: SinkState) -> (step: Step)
        ensures
            old(self)@.device_checked(device, sink, final(self)@, step@),
    {
        if self.is_other_device(&device) {
            self.default_output_switch_pending = true;
            if !sink.empty && !sink.paused {
                return Step::Wait { command: Command::Pause, phase: Phase::TickPause };
            }
        }
        self.tick(sink)
    }

    /// Goes on with an operation when a command that it asked for was carried out.
    pub fn report(&mut self, phase: Phase, report: Report) -> (step: Step)
        ensures
            old(self)@.answered(phase, report, final(self)@, step@),
            old(self)@.consistent() && fits(old(self)@, phase) ==> final(self)@.consistent()
                && step_fits(final(self)@, step@),
    {
        let step = self.answer(phase, report);
        proof {
            if old(self)@.consistent() && fits(old(self)@, phase) {
                lemma_report_keeps_consistency(old(self)@, phase, report, self@, step@);
            }
        }
        step
    }

    fn answer(&mut self, phase: Phase, report: Report) -> (step: Step)
        ensures
            old(self)@.answered(phase, report, final(self)@, step@),
    {
        let sink = report.sink;
        match phase {
            Phase::NewPlaybackDevice(then) => {
                if self.is_other_device(&report.device) {
                    Step::Wait {
                        command: Command::RebindOutput,
                        phase: Phase::NewPlaybackRebind(then),
                    }
                } else {
                    self.begin_new_playback(then, sink)
                }
            },
            Phase::NewPlaybackRebind(then) => {
                if report.ok {
                    self.note_rebound(report.device);
                }
                self.begin_new_playback(then, sink)
            },
            Phase::ResumeDevice(then) => {
                if self.is_other_device(&report.device) {
                    self.rebind_for_resume(then, sink)
                } else {
                    self.continue_playback(then, sink)
                }
            },
            Phase::ResumeRebind { restore, position, then } => {
                self.restore_after_rebind(restore, position, then, report)
            },
            Phase::ResumeRestart(then) => {
                if report.ok {
                    self.active_playback_epoch = self.following_epoch();
                    self.last_status = PlayStatus::Paused(sink.position);
                } else {
                    self.last_status = PlayStatus::Stopped;
                }
                self.continue_playback(then, sink)
            },
            Phase::Resuming => {
                self.last_status = PlayStatus::Playing(sink.position);
                self.finish(sink)
            },
            Phase::Pausing => {
                self.last_status = PlayStatus::Paused(sink.position);
                self.finish(sink)
            },
            Phase::Seeking => {
                self.last_status = if sink.paused {
                    PlayStatus::Paused(sink.position)
                } else {
                    PlayStatus::Playing(sink.position)
                };
                self.finish(sink)
            },
            Phase::Starting { song_id, after } => {
                if report.ok {
                    self.note_playing(song_id, after, report.seek_ok, sink)
                } else {
                    self.songs.insert(song_id, TrackSource::Unplayable);
                    self.advance_after_failure(after, sink)
                }
            },
            Phase::Settling(after) => self.go_on(after, sink),
            Phase::TickDevice => self.check_device(report.device, sink),
            Phase::TickPause => {
                self.last_status = PlayStatus::Paused(sink.position);
                self.tick(sink)
            },
            Phase::TickSeek(position) => {
                if !report.ok {
                    self.pending_seek_after_start = Some(position);
                }
                self.finish_tick(sink)
            },
        }
    }

    /// Starts the current song, as the whole of what is left of an operation.
    fn start_consistently(&mut self, after: After, sink: SinkState) -> (step: Step)
        ensures
            old(self)@.started(after, sink, final(self)@, step@),
            old(self)@.consistent() ==> final(self)@.consistent(),
            step_fits(final(self)@, step@),
    {
        let step = self.start_current(after, sink);
        proof {
            lemma_start_keeps_consistency(old(self)@, after, sink, self@, step@);
            lemma_start_fits(old(self)@, after, sink, self@, step@);
        }
        step
    }

    /// Goes to the next song and starts it, from its beginning and in place of what plays.
    pub fn next_song(&mut self, sink: SinkState) -> (step: Step)
        ensures
            old(self)@.skipped_ahead(sink, final(self)@, step@),
            old(self)@.current_index matches Some(index) ==> 0 <= index && index + 1
                < old(self)@.playlist.len() && old(self)@.songs.contains_key(
                old(self)@.playlist[index + 1],
            ) && old(self)@.songs[old(self)@.playlist[index + 1]] is Ready ==> {
                &&& final(self)@.current_index == Some(index + 1)
                &&& final(self)@.playlist == old(self)@.playlist
                &&& step@ matches StepView::Wait {
                    command: CommandView::Start { path, stop_first, seek_to, .. },
                    ..
                } && old(self)@.songs[old(self)@.playlist[index + 1]] == TrackSource::Ready(path)
                    && seek_to is None && stop_first == (!sink.empty || sink.paused)
            },
            step@ matches StepView::Wait { command: CommandView::Start { stop_first, .. }, .. }
                ==> stop_first == (!sink.empty || sink.paused),
            exists|next: PlayerState| #[trigger]
                old(self)@.with_pending_seek(None).moved_to_next(next) && next.started(
                    After::Finish,
                    sink,
                    final(self)@,
                    step@,
                ),
            old(self)@.consistent() ==> final(self)@.consistent() && step_fits(final(self)@, step@),
    {
        self.pending_seek_after_start = None;
        let ghost unsought = self@;
        self.move_to_next();
        let ghost next = self@;
        assert(unsought.moved_to_next(self@));
        proof {
            if unsought.consistent() {
                lemma_next_keeps_consistency(unsought, self@);
            }
        }
        let step = self.start_consistently(After::Finish, sink);
        proof {
            lemma_start_replaces_what_plays(next, After::Finish, sink, self@, step@);
            if let Some(index) = old(self)@.current_index {
                if 0 <= index && index + 1 < old(self)@.playlist.len()
                    && old(self)@.songs.contains_key(old(self)@.playlist[index + 1])
                    && old(self)@.songs[old(self)@.playlist[index + 1]] is Ready {
                    lemma_skipping_ahead_starts_the_song_behind(
                        old(self)@,
                        index,
                        old(self)@.songs[old(self)@.playlist[index + 1]]->Ready_0,
                        sink,
                        self@,
                        step@,
                    );
                }
            }
        }
        step
    }

    /// Goes to the previous song and starts it, from its beginning and in place of what plays.
    pub fn prev_song(&mut self, sink: SinkState) -> (step: Step)
        ensures
            old(self)@.skipped_back(sink, final(self)@, step@),
            old(self)@.current_index matches Some(index) ==> 0 < index < old(self)@.playlist.len()
                && old(self)@.songs.contains_key(old(self)@.playlist[index - 1])
                && old(self)@.songs[old(self)@.playlist[index - 1]] is Ready ==> {
                &&& final(self)@.current_index == Some(index - 1)
                &&& final(self)@.playlist == old(self)@.playlist
                &&& step@ matches StepView::Wait {
                    command: CommandView::Start { path, stop_first, seek_to, .. },
                    ..
                } && old(self)@.songs[old(self)@.playlist[index - 1]] == TrackSource::Ready(path)
                    && seek_to is None && stop_first == (!sink.empty || sink.paused)
            },
            step@ matches StepView::Wait { command: CommandView::Start { stop_first, .. }, .. }
                ==> stop_first == (!sink.empty || sink.paused),
            old(self)@.with_pending_seek(None).with_index(old(self)@.prev_index()).started(
                After::Finish,
                sink,
                final(self)@,
                step@,
            ),
            old(self)@.consistent() ==> final(self)@.consistent() && step_fits(final(self)@, step@),
    {
        self.pending_seek_after_start = None;
        self.move_to_prev();
        let ghost moved = self@;
        let step = self.start_consistently(After::Finish, sink);
        proof {
            lemma_start_replaces_what_plays(moved, After::Finish, sink, self@, step@);
            if let Some(index) = old(self)@.current_index {
                if 0 < index < old(self)@.playlist.len() && old(self)@.songs.contains_key(
                    old(self)@.playlist[index - 1],
                ) && old(self)@.songs[old(self)@.playlist[index - 1]] is Ready {
                    lemma_skipping_back_starts_the_song_before(
                        old(self)@,
                        index,
                        old(self)@.songs[old(self)@.playlist[index - 1]]->Ready_0,
                        sink,
                        self@,
                        step@,
                    );
                }
            }
        }
        step
    }

    /// Plays a song, on the default output device. A song that the playlist lacks is put in
    /// after the current one.
    pub fn play(&mut self, song_id: u64) -> (step: Step)
        ensures
            (final(self)@, step@) == old(self)@.new_playback(ThenPlay::Song(song_id)),
            final(self)@ == old(self)@,
            step@ matches StepView::Wait { phase, .. } && phase == (
            if old(self)@.default_output_switch_pending {
                Phase::NewPlaybackRebind(ThenPlay::Song(song_id))
            } else {
                Phase::NewPlaybackDevice(ThenPlay::Song(song_id))
            }),
            old(self)@.consistent() ==> final(self)@.consistent() && step_fits(final(self)@, step@),
    {
        self.prepare_new_playback(ThenPlay::Song(song_id))
    }

    /// Seeks in the current song, which is started first if it is not loaded.
    pub fn seek_to_duration(&mut self, position: Position, sink: SinkState) -> (step: Step)
        ensures
            old(self)@.seek_begun(position, sink, final(self)@, step@),
            old(self)@.playlist.len() > 0 && !sink.empty ==> {
                &&& step@ == (StepView::Wait {
                    command: CommandView::Seek { position },
                    phase: Phase::Seeking,
                })
                &&& final(self)@.pending_seek_after_start is None
                &&& final(self)@.playlist == old(self)@.playlist
            },
            old(self)@.playlist.len() == 0 ==> step@ == StepView::Done(PlayStatus::Stopped),
            if old(self)@.playlist.len() == 0 {
                (final(self)@, step@) == old(self)@.with_index(None).with_status(
                    PlayStatus::Stopped,
                ).done(sink)
            } else if sink.empty {
                old(self)@.with_some_index().started(
                    After::Seek(position),
                    sink,
                    final(self)@,
                    step@,
                )
            } else {
                (final(self)@, step@) == old(self)@.with_some_index().seeking(position)
            },
            old(self)@.consistent() ==> final(self)@.consistent() && step_fits(final(self)@, step@),
    {
        if self.playlist.len() == 0 {
            self.current_index = None;
            self.last_status = PlayStatus::Stopped;
            return self.finish(sink);
        }
        if self.current_index.is_none() {
            self.current_index = Some(0);
        }
        if sink.empty {
            self.start_consistently(After::Seek(position), sink)
        } else {
            self.apply_seek(position)
        }
    }

    fn resume_position(&self, sink: SinkState) -> (position: Option<Position>)
        ensures
            position == self@.resume_position(sink),
    {
        if sink.empty {
            if let PlayStatus::Paused(position) = self.last_status {
                return Some(position);
            }
        }
        None
    }

    /// Pauses what plays, and lets what is paused play. A song that is not loaded is started,
    /// where it was paused.
    pub fn toggle_pause_resume(&mut self, sink: SinkState) -> (step: Step)
        ensures
            old(self)@.toggle_begun(sink, final(self)@, step@),
            if old(self)@.playlist.len() == 0 {
                (final(self)@, step@) == old(self)@.with_status(PlayStatus::Stopped).done(sink)
            } else if old(self)@.current_requires_download() {
                old(self)@.with_pending_seek(old(self)@.resume_position(sink)).started(
                    After::Finish,
                    sink,
                    final(self)@,
                    step@,
                )
            } else if sink.paused {
                (final(self)@, step@) == old(self)@.resuming(ThenResume::Play, sink)
            } else if sink.empty {
                (final(self)@, step@) == old(self)@.new_playback(
                    ThenPlay::Current(old(self)@.resume_position(sink)),
                )
            } else {
                (final(self)@, step@) == (
                    old(self)@,
                    StepView::Wait {
                        command: CommandView::Pause,
                        phase: Phase::Pausing,
                    },
                )
            },
            old(self)@.consistent() ==> final(self)@.consistent() && step_fits(final(self)@, step@),
    {
        if self.playlist.len() == 0 {
            self.last_status = PlayStatus::Stopped;
            return self.finish(sink);
        }
        let position = self.resume_position(sink);
        if self.current_track_requires_download() {
            self.pending_seek_after_start = position;
            return self.start_consistently(After::Finish, sink);
        }
        if sink.paused {
            self.prepare_resume(ThenResume::Play, sink)
        } else if sink.empty {
            self.prepare_new_playback(ThenPlay::Current(position))
        } else {
            Step::Wait { command: Command::Pause, phase: Phase::Pausing }
        }
    }

    /// Pauses the playback.
    pub fn pause(&mut self, sink: SinkState) -> (step: Step)
        ensures
            old(self)@.pause_begun(sink, final(self)@, step@),
            if old(self)@.playlist.len() == 0 {
                (final(self)@, step@) == old(self)@.with_status(PlayStatus::Stopped).done(sink)
            } else {
                (final(self)@, step@) == (
                    old(self)@,
                    StepView::Wait {
                        command: CommandView::Pause,
                        phase: Phase::Pausing,
                    },
                )
            },
            old(self)@.consistent() ==> final(self)@.consistent() && step_fits(final(self)@, step@),
    {
        if self.playlist.len() == 0 {
            self.last_status = PlayStatus::Stopped;
            return self.finish(sink);
        }
        Step::Wait { command: Command::Pause, phase: Phase::Pausing }
    }

    /// Lets the playback go on. A song that is not loaded is started, where it was paused.
    pub fn resume(&mut self, sink: SinkState) -> (step: Step)
        ensures
            old(self)@.resume_begun(sink, final(self)@, step@),
            if old(self)@.playlist.len() == 0 {
                (final(self)@, step@) == old(self)@.with_status(PlayStatus::Stopped).done(sink)
            } else if old(self)@.current_requires_download() {
                old(self)@.with_pending_seek(old(self)@.resume_position(sink)).started(
                    After::Finish,
                    sink,
                    final(self)@,
                    step@,
                )
            } else {
                (final(self)@, step@) == old(self)@.resuming(
                    ThenResume::PlayOrStart(old(self)@.resume_position(sink)),
                    sink,
                )
            },
            old(self)@.consistent() ==> final(self)@.consistent() && step_fits(final(self)@, step@),
    {
        if self.playlist.len() == 0 {
            self.last_status = PlayStatus::Stopped;
            return self.finish(sink);
        }
        let position = self.resume_position(sink);
        if self.current_track_requires_download() {
            self.pending_seek_after_start = position;
            return self.start_consistently(After::Finish, sink);
        }
        self.prepare_resume(ThenResume::PlayOrStart(position), sink)
    }

    /// One turn of the event loop. The default output device is looked up now and then.
    pub fn event_loop(&mut self, sink: SinkState) -> (step: Step)
        ensures
            old(self)@.turn_begun(sink, final(self)@, step@),
            step@ matches StepView::Wait { command: CommandView::Start { stop_first, .. }, .. }
                ==> stop_first == (!sink.empty || sink.paused),
            !(step@ matches StepView::Wait { phase: Phase::TickDevice, .. }) && !sink.paused
                && old(self)@.last_status is Playing && sink.finished_epoch != 0
                && sink.finished_epoch == old(self)@.active_playback_epoch && sink.finished_epoch
                != old(self)@.handled_finished_epoch && old(self)@.mode != PlayMode::LoopOne ==> (
            old(self)@.current_index matches Some(index) ==> 0 <= index && index + 1
                < old(self)@.playlist.len() && old(self)@.songs.contains_key(
                old(self)@.playlist[index + 1],
            ) && old(self)@.songs[old(self)@.playlist[index + 1]] is Ready ==> {
                &&& final(self)@.current_index == Some(index + 1)
                &&& final(self)@.playlist == old(self)@.playlist
                &&& step@ matches StepView::Wait { command: CommandView::Start { path, .. }, .. }
                    && old(self)@.songs[old(self)@.playlist[index + 1]] == TrackSource::Ready(path)
            }),
            if old(self)@.checks_device() {
                (final(self)@, step@) == (
                    old(self)@,
                    StepView::Wait {
                        command: CommandView::QueryDefaultOutput,
                        phase: Phase::TickDevice,
                    },
                )
            } else {
                old(self)@.ticked(sink, final(self)@, step@)
            },
            old(self)@.consistent() ==> final(self)@.consistent() && step_fits(final(self)@, step@),
    {
        let interval: u64 = if self.runtime_config.default_output_check_every_ticks < 1 {
            1
        } else {
            self.runtime_config.default_output_check_every_ticks
        };
        let next_tick = self.tick_counter.saturating_add(1);
        if next_tick % interval == 0 {
            return Step::Wait { command: Command::QueryDefaultOutput, phase: Phase::TickDevice };
        }
        let step = self.tick(sink);
        proof {
            if old(self)@.consistent() {
                lemma_tick_keeps_consistency(old(self)@, sink, self@, step@);
            }
            lemma_tick_fits(old(self)@, sink, self@, step@);
            lemma_turn_replaces_what_plays(old(self)@, sink, self@, step@);
            if let Some(index) = old(self)@.current_index {
                if 0 <= index && index + 1 < old(self)@.playlist.len() && old(self)@.has_finished(
                    sink,
                ) && !sink.paused && old(self)@.mode != PlayMode::LoopOne
                    && old(self)@.songs.contains_key(old(self)@.playlist[index + 1])
                    && old(self)@.songs[old(self)@.playlist[index + 1]] is Ready {
                    lemma_end_of_a_song_leads_to_the_next(
                        old(self)@,
                        index,
                        old(self)@.songs[old(self)@.playlist[index + 1]]->Ready_0,
                        sink,
                        self@,
                        step@,
                    );
                }
            }
        }
        step
    }
}

} // verus!
