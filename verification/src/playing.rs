//! What the interface shows of the song that is being played.
use std::collections::HashSet;

use vstd::prelude::*;

use crate::app::App;
use crate::model::TrackDetail;
use crate::player::{PlayMode, PlayStatus, PlayerStateFrame, Position, ShuffleState};
use crate::songlist::{shows_track, CoverJob};
use crate::text::{
    append_decimal, decimal, digits_value, lemma_decimal_round_trip, lemma_two_digits_are_written,
    two_digits, two_digits_text,
};
use crate::types::{to_track_detail_detail, SongDetail};
use crate::utility::{joined_halves, lemma_halves_are_unique, u64_to_i32x2};

verus! {

/// The longest time that is shown: as many milliseconds as 63 bits hold.
pub const LONGEST_NANOS: u128 = 9_223_372_036_854_775_807_000_000;

/// The width of the cover of the song that is being played.
pub const PLAYING_COVER_WIDTH: u16 = 100;

/// What the interface calls the states of the player.
#[derive(Clone, Copy, Debug, PartialEq, Eq, Structural)]
pub enum StatusTrigger {
    Playing,
    Pause,
    Idle,
    Loading,
}

/// What the interface is shown after a turn of the event loop.
#[derive(Debug)]
pub struct PlayerFrameView {
    pub status: StatusTrigger,
    /// How much of the song has been played, as a text and in milliseconds. What was shown
    /// before stays if it is absent.
    pub played: Option<(String, i32)>,
    pub loop_type: i32,
    pub shuffled: bool,
}

/// The song that is being played, once its details are known.
#[derive(Debug)]
pub struct LoadedSong {
    pub total_duration: String,
    pub total_duration_int: i32,
    pub song: SongDetail,
    pub cover: CoverJob,
}

/// A length of time in hours, minutes and seconds, the last two with two digits.
pub open spec fn duration_text(nanos: nat) -> Seq<char> {
    let seconds = nanos / 1_000_000_000;
    decimal(seconds / 3600) + ":"@ + two_digits((seconds / 60) % 60) + ":"@ + two_digits(
        seconds % 60,
    )
}

/// What the interface calls a state of the player.
pub open spec fn trigger_of(status: PlayStatus) -> StatusTrigger {
    match status {
        PlayStatus::Playing(_) => StatusTrigger::Playing,
        PlayStatus::Paused(_) => StatusTrigger::Pause,
        PlayStatus::Stopped => StatusTrigger::Idle,
        PlayStatus::Downloading => StatusTrigger::Loading,
    }
}

/// How far a song has been played, where a song is loaded.
pub open spec fn position_of_status(status: PlayStatus) -> Option<Position> {
    match status {
        PlayStatus::Playing(position) => Some(position),
        PlayStatus::Paused(position) => Some(position),
        _ => None,
    }
}

/// The number by which the interface knows a way to go on.
pub open spec fn loop_type_of(mode: PlayMode) -> i32 {
    match mode {
        PlayMode::LoopAll => 2,
        PlayMode::LoopOne => 1,
        PlayMode::Sequence => 0,
    }
}

/// The song that the interface has to show anew, where 0 is none.
pub open spec fn stale_song(current: Option<u64>, shown: u64, shows_idle: bool) -> Option<u64> {
    match current {
        Some(id) => if id != shown {
            Some(id)
        } else {
            None
        },
        None => if shown != 0 || !shows_idle {
            Some(0u64)
        } else {
            None
        },
    }
}

/// Whether the details of a song are shown.
pub open spec fn shows_details(
    loaded: LoadedSong,
    track: TrackDetail,
    loved_ids: Set<u64>,
) -> bool {
    &&& loaded.total_duration@ == duration_text((track.duration * 1_000_000) as nat)
    &&& loaded.total_duration_int == track.duration as i32
    &&& shows_track(loaded.song, track, loved_ids)
    &&& loaded.cover.row == 0
    &&& loaded.cover.id == track.album.id
    &&& loaded.cover.url@ == track.album.pic_url@
}

/// Whether a row stands for a song of which nothing else is known yet.
pub open spec fn is_placeholder(song: SongDetail, id: u64, name: Seq<char>) -> bool {
    &&& song.album@ == ""@
    &&& song.album_id_1 == 0
    &&& song.album_id_2 == 0
    &&& song.duration@ == "0:00:00"@
    &&& joined_halves(song.id_1, song.id_2) == id
    &&& !song.loved
    &&& song.name@ == name
    &&& song.pic_url@ == ""@
    &&& !song.selected
    &&& song.singer@ == ""@
}

impl App {
    /// A length of time as the interface shows it.
    pub fn format_duration(duration: Position) -> (text: String)
        requires
            duration.nanos <= LONGEST_NANOS,
        ensures
            text@ == duration_text(duration.nanos as nat),
    {
        let whole = (duration.nanos / 1_000_000_000) as u64;
        let mut text = String::new();
        append_decimal(&mut text, whole / 3600);
        text.append(":");
        text.append(two_digits_text((whole / 60) % 60).as_str());
        text.append(":");
        text.append(two_digits_text(whole % 60).as_str());
        assert(text@ =~= duration_text(duration.nanos as nat));
        text
    }

    /// Decides which song the interface has to show anew, where 0 is none: the current song if
    /// another one is shown, and none if there is no current song and the interface shows one or
    /// does not show that the player is idle.
    pub fn song_to_reload(current: Option<u64>, shown: u64, shows_idle: bool) -> (song: Option<u64>)
        ensures
            song == stale_song(current, shown, shows_idle),
            song == (match current {
                Some(id) => if id != shown {
                    Some(id)
                } else {
                    None
                },
                None => if shown != 0 || !shows_idle {
                    Some(0u64)
                } else {
                    None
                },
            }),
    {
        match current {
            Some(id) => {
                if id != shown {
                    Some(id)
                } else {
                    None
                }
            },
            None => {
                if shown != 0 || !shows_idle {
                    Some(0)
                } else {
                    None
                }
            },
        }
    }

    /// What the interface is shown after a turn of the event loop.
    pub fn event_loop(frame: &PlayerStateFrame) -> (view: PlayerFrameView)
        requires
            position_of_status(frame.play_status) is Some ==> position_of_status(
                frame.play_status,
            )->0.nanos <= LONGEST_NANOS,
        ensures
            view.status == trigger_of(frame.play_status),
            view.status == StatusTrigger::Playing <==> frame.play_status is Playing,
            view.status == StatusTrigger::Pause <==> frame.play_status is Paused,
            view.status == StatusTrigger::Loading <==> frame.play_status is Downloading,
            view.loop_type == (match frame.play_order.play_mode {
                PlayMode::Sequence => 0i32,
                PlayMode::LoopOne => 1i32,
                PlayMode::LoopAll => 2i32,
            }),
            match position_of_status(frame.play_status) {
                Some(position) => {
                    &&& view.played is Some
                    &&& (view.played->0).0@ == duration_text(position.nanos as nat)
                    &&& (view.played->0).1 == (position.nanos / 1_000_000) as i32
                },
                None => view.played is None,
            },
            view.loop_type == loop_type_of(frame.play_order.play_mode),
            view.shuffled == (frame.play_order.shuffle_state == ShuffleState::Enabled),
    {
        let (status, position) = match frame.play_status {
            PlayStatus::Playing(position) => (StatusTrigger::Playing, Some(position)),
            PlayStatus::Paused(position) => (StatusTrigger::Pause, Some(position)),
            PlayStatus::Stopped => (StatusTrigger::Idle, None),
            PlayStatus::Downloading => (StatusTrigger::Loading, None),
        };
        let played = match position {
            Some(position) => Some(
                (App::format_duration(position), (position.nanos / 1_000_000) as i32),
            ),
            None => None,
        };
        let loop_type: i32 = match frame.play_order.play_mode {
            PlayMode::LoopAll => 2,
            PlayMode::LoopOne => 1,
            PlayMode::Sequence => 0,
        };
        PlayerFrameView {
            status,
            played,
            loop_type,
            shuffled: frame.play_order.shuffle_state == ShuffleState::Enabled,
        }
    }

    /// What is shown of a song before its details are known. The song 0 stands for no song, and
    /// the interface says so.
    pub fn reload_playing_song(id: u64) -> (song: SongDetail)
        ensures
            is_placeholder(
                song,
                id,
                if id == 0 {
                    "无音乐"@
                } else {
                    ""@
                },
            ),
    {
        let (id_1, id_2) = u64_to_i32x2(id);
        let name: &str = if id == 0 {
            "无音乐"
        } else {
            ""
        };
        SongDetail {
            album: "".to_string(),
            album_id_1: 0,
            album_id_2: 0,
            duration: "0:00:00".to_string(),
            id_1,
            id_2,
            loved: false,
            name: name.to_string(),
            pic_url: "".to_string(),
            selected: false,
            singer: "".to_string(),
        }
    }

    /// Whether a song is still the current one. What came for another song is not shown.
    pub fn is_still_current(current: Option<u64>, id: u64) -> (still: bool)
        ensures
            still == (current == Some(id)),
    {
        match current {
            Some(current) => current == id,
            None => false,
        }
    }

    /// What is shown of a song once its details are known, unless another one is current by then.
    pub fn playing_song_loaded(
        current: Option<u64>,
        id: u64,
        tracks: &Vec<TrackDetail>,
        loved_ids: &HashSet<u64>,
    ) -> (loaded: Option<LoadedSong>)
        requires
            current == Some(id) ==> tracks@.len() > 0,
        ensures
            loaded matches Some(loaded) ==> shows_details(loaded, tracks@[0], loved_ids@),
            loaded is Some <==> current == Some(id),
            loaded is Some ==> {
                let track = tracks@[0];
                &&& loaded->0.total_duration@ == duration_text(
                    (track.duration * 1_000_000) as nat,
                )
                &&& loaded->0.total_duration_int == track.duration as i32
                &&& shows_track(loaded->0.song, track, loved_ids@)
                &&& loaded->0.cover.row == 0
                &&& loaded->0.cover.id == track.album.id
                &&& loaded->0.cover.url@ == track.album.pic_url@
            },
    {
        if !App::is_still_current(current, id) {
            return None;
        }
        let track = &tracks[0];
        let song = to_track_detail_detail(loved_ids, track);
        Some(
            LoadedSong {
                total_duration: App::format_duration(Position::from_millis(track.duration as u64)),
                total_duration_int: track.duration as i32,
                song,
                cover: CoverJob {
                    row: 0,
                    id: track.album.id,
                    url: track.album.pic_url.clone(),
                },
            },
        )
    }
}

/// Once the interface shows what it was told to show, nothing is left to reload.
pub proof fn lemma_placeholder_is_shown_once(song: SongDetail, id: u64, name: Seq<char>)
    requires
        is_placeholder(song, id, name),
    ensures
        song.id() == id,
{
    lemma_halves_are_unique(song.id_1, song.id_2, song.id_1, song.id_2);
}

/// A length of time is shown as hours, minutes and seconds with colons between them, the minutes
/// and the seconds with two digits each. Parts of a second do not count.
pub proof fn lemma_duration_shows_the_time(nanos: nat)
    ensures
        ({
            let text = duration_text(nanos);
            let seconds = nanos / 1_000_000_000;
            let end = text.len() as int;
            &&& end >= 7
            &&& digits_value(text.take(end - 6)) == seconds / 3600
            &&& seconds < 36000 ==> end == 7
            &&& text[end - 6] == ':'
            &&& digits_value(text.subrange(end - 5, end - 3)) == (seconds / 60) % 60
            &&& text[end - 3] == ':'
            &&& digits_value(text.skip(end - 2)) == seconds % 60
        }),
{
    let text = duration_text(nanos);
    let seconds = nanos / 1_000_000_000;
    let end = text.len() as int;
    reveal_strlit(":");
    lemma_decimal_round_trip(seconds / 3600);
    lemma_two_digits_are_written((seconds / 60) % 60);
    lemma_two_digits_are_written(seconds % 60);
    assert(text.take(end - 6) =~= decimal(seconds / 3600));
    assert(text.subrange(end - 5, end - 3) =~= two_digits((seconds / 60) % 60));
    assert(text.skip(end - 2) =~= two_digits(seconds % 60));
}

/// What the interface calls the states of the player, and which of them have a position.
pub proof fn lemma_states_have_their_names(position: Position)
    ensures
        trigger_of(PlayStatus::Playing(position)) == StatusTrigger::Playing,
        trigger_of(PlayStatus::Paused(position)) == StatusTrigger::Pause,
        trigger_of(PlayStatus::Stopped) == StatusTrigger::Idle,
        trigger_of(PlayStatus::Downloading) == StatusTrigger::Loading,
        position_of_status(PlayStatus::Playing(position)) == Some(position),
        position_of_status(PlayStatus::Paused(position)) == Some(position),
        position_of_status(PlayStatus::Stopped) is None,
        position_of_status(PlayStatus::Downloading) is None,
        loop_type_of(PlayMode::Sequence) == 0,
        loop_type_of(PlayMode::LoopOne) == 1,
        loop_type_of(PlayMode::LoopAll) == 2,
{
}

/// A row that stands for a song shows its identifier and a name, and nothing else of a song.
pub proof fn lemma_placeholder_shows_nothing_else(song: SongDetail, id: u64, name: Seq<char>)
    requires
        is_placeholder(song, id, name),
    ensures
        song.name@ == name,
        joined_halves(song.id_1, song.id_2) == id,
        song.album@.len() == 0,
        song.singer@.len() == 0,
        song.pic_url@.len() == 0,
        song.duration@ == "0:00:00"@,
        song.album_id_1 == 0 && song.album_id_2 == 0,
        !song.loved && !song.selected,
{
    reveal_strlit("");
}

/// The interface shows a song anew exactly if another one is current, or if none is and it does
/// not show that yet. What it shows then is the current song, or that there is none.
pub proof fn lemma_song_is_shown_anew(current: Option<u64>, shown: u64, shows_idle: bool, id: u64)
    ensures
        current == Some(id) && id != shown ==> stale_song(current, shown, shows_idle) == Some(id),
        current == Some(shown) ==> stale_song(current, shown, shows_idle) is None,
        current is None && shown == 0 && shows_idle ==> stale_song(current, shown, shows_idle)
            is None,
        current is None && (shown != 0 || !shows_idle) ==> stale_song(current, shown, shows_idle)
            == Some(0u64),
{
}

/// The details of a song are its length as a text and in milliseconds, its row, and the cover of
/// its album.
pub proof fn lemma_details_of_a_song(loaded: LoadedSong, track: TrackDetail, loved_ids: Set<u64>)
    requires
        shows_details(loaded, track, loved_ids),
    ensures
        loaded.total_duration@ == duration_text((track.duration * 1_000_000) as nat),
        track.duration <= i32::MAX ==> loaded.total_duration_int == track.duration,
        loaded.song.name@ == track.name@,
        joined_halves(loaded.song.id_1, loaded.song.id_2) == track.id,
        loaded.cover.id == track.album.id,
        loaded.cover.url@ == track.album.pic_url@,
{
    crate::songlist::lemma_row_shows_its_song(loaded.song, track, loved_ids);
}

} // verus!
