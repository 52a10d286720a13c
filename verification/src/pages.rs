//! The pages: a playlist, the queue, the lyrics and the login.
use vstd::prelude::*;

use crate::app::App;
use crate::app_lib::AppLib;
use crate::model::{PlaylistDetail, TrackDetail};
use crate::player::Position;
use crate::qr::{drawn, picture_bytes, qr_matrix};
use crate::songlist::CoverJob;
use crate::utility::{joined_halves, u64_to_i32x2};

verus! {

/// The width of the cover on the page of a playlist.
pub const PLAYLIST_COVER_WIDTH: u16 = 400;

/// The width of the picture of a user, and of covers in lists.
pub const SMALL_IMAGE_WIDTH: u16 = 72;

/// The width of the cover on the page of the lyrics.
pub const LYRICS_COVER_WIDTH: u16 = 600;

/// The width of the login code.
pub const LOGIN_CODE_WIDTH: u32 = 400;

/// What the page of a playlist shows.
#[derive(Debug)]
pub struct PlaylistPage {
    pub name: String,
    pub description: String,
    pub play_count: i32,
    pub subscribed: bool,
    pub track_count: i32,
    pub creator_name: String,
    /// Whether the user may follow the playlist: not their own.
    pub subscribable: bool,
    /// When the playlist was made, in milliseconds since 1970.
    pub create_time: i64,
    pub cover: CoverJob,
    pub avatar: CoverJob,
}

/// A line of lyrics. What is missing is absent.
#[derive(Debug)]
pub struct LyricsLine {
    pub time: Position,
    pub content: Option<String>,
    pub translation: Option<String>,
}

/// A line of lyrics as the interface shows it.
#[derive(Debug)]
pub struct ShownLine {
    /// When the line is sung, in milliseconds.
    pub time: i32,
    pub content: String,
    pub translation: String,
}

/// What is to be done with the lyrics.
#[derive(Clone, Copy, Debug, PartialEq, Eq, Structural)]
pub enum LyricsAction {
    /// What is shown stays.
    Keep,
    /// Nothing is shown.
    Clear,
    /// The lyrics of this song are fetched.
    Fetch(u64),
}

/// Whether a line is shown as it is.
pub open spec fn shows_line(shown: ShownLine, line: LyricsLine) -> bool {
    &&& shown.time == (line.time.nanos / 1_000_000) as i32
    &&& shown.content@ == crate::model::text_or_empty(crate::json::optional_text(line.content))
    &&& shown.translation@ == crate::model::text_or_empty(
        crate::json::optional_text(line.translation),
    )
}

/// Whether a page shows a playlist to a user.
pub open spec fn shows_playlist(
    page: PlaylistPage,
    id: u64,
    playlist: PlaylistDetail,
    login_id: Option<u64>,
) -> bool {
    &&& page.name@ == playlist.name@
    &&& page.description@ == playlist.description@
    &&& page.play_count == playlist.play_count
    &&& page.subscribed == playlist.subscribed
    &&& page.track_count == playlist.track_count
    &&& page.creator_name@ == playlist.creator.nickname@
    &&& page.subscribable == (playlist.creator.id != (match login_id {
        Some(login_id) => login_id,
        None => 0,
    }))
    &&& page.create_time == playlist.create_time as i64
    &&& page.cover.id == id
    &&& page.cover.url@ == playlist.cover_img_url@
    &&& page.avatar.id == playlist.creator.id
    &&& page.avatar.url@ == playlist.creator.avatar_url@
}

/// The line that is marked when the line `index` is sung and `count` lines are shown.
pub open spec fn marked_line(index: Option<usize>, count: usize) -> Option<i32> {
    match index {
        None => Some(-1i32),
        Some(index) => if index < count {
            Some(index as i32)
        } else {
            None
        },
    }
}

/// What is to be done with the lyrics when `current` is played and those of `shown` are shown.
pub open spec fn lyrics_action(current: Option<u64>, shown: u64) -> LyricsAction {
    match current {
        None => LyricsAction::Keep,
        Some(id) => if id == shown {
            LyricsAction::Keep
        } else if id == 0 {
            LyricsAction::Clear
        } else {
            LyricsAction::Fetch(id)
        },
    }
}

fn text_or_nothing(text: &Option<String>) -> (shown: String)
    ensures
        shown@ == crate::model::text_or_empty(crate::json::optional_text(*text)),
{
    match text {
        Some(text) => text.clone(),
        None => String::new(),
    }
}

impl App {
    /// What the page of a playlist shows to a user.
    pub fn playlist_load_data(id: u64, playlist: &PlaylistDetail, login_id: Option<u64>) -> (page:
        PlaylistPage)
        requires
            playlist.play_count <= i32::MAX,
        ensures
            shows_playlist(page, id, *playlist, login_id),
            page.name@ == playlist.name@,
            page.description@ == playlist.description@,
            page.play_count == playlist.play_count,
            page.subscribed == playlist.subscribed,
            page.track_count == playlist.track_count,
            page.creator_name@ == playlist.creator.nickname@,
            page.subscribable == (playlist.creator.id != (match login_id {
                Some(login_id) => login_id,
                None => 0,
            })),
            page.create_time == playlist.create_time as i64,
            page.cover.id == id,
            page.cover.url@ == playlist.cover_img_url@,
            page.avatar.id == playlist.creator.id,
            page.avatar.url@ == playlist.creator.avatar_url@,
    {
        let login_id: u64 = match login_id {
            Some(login_id) => login_id,
            None => 0,
        };
        PlaylistPage {
            name: playlist.name.clone(),
            description: playlist.description.clone(),
            play_count: playlist.play_count as i32,
            subscribed: playlist.subscribed,
            track_count: playlist.track_count,
            creator_name: playlist.creator.nickname.clone(),
            subscribable: playlist.creator.id != login_id,
            create_time: playlist.create_time as i64,
            cover: CoverJob { row: 0, id, url: playlist.cover_img_url.clone() },
            avatar: CoverJob {
                row: 0,
                id: playlist.creator.id,
                url: playlist.creator.avatar_url.clone(),
            },
        }
    }

    /// Decides whether the queue has to be loaded: unless it was shown after the list was last
    /// changed. Times are in nanoseconds.
    pub fn play_queue_load_data(shown_at: Option<u128>, changed_at: u128) -> (load: bool)
        ensures
            load == !(shown_at is Some && shown_at->0 > changed_at),
    {
        match shown_at {
            Some(shown_at) => shown_at <= changed_at,
            None => true,
        }
    }

    /// Decides what is to be done with the lyrics.
    pub fn lyrics_reload(current: Option<u64>, shown: u64) -> (action: LyricsAction)
        ensures
            action == lyrics_action(current, shown),
    {
        match current {
            None => LyricsAction::Keep,
            Some(id) => {
                if id == shown {
                    LyricsAction::Keep
                } else if id == 0 {
                    LyricsAction::Clear
                } else {
                    LyricsAction::Fetch(id)
                }
            },
        }
    }

    /// The lines of lyrics as the interface shows them.
    pub fn lyrics_lines(lines: &Vec<LyricsLine>) -> (shown: Vec<ShownLine>)
        ensures
            shown@.len() == lines@.len(),
            forall|i: int| 0 <= i < shown@.len() ==> shows_line(#[trigger] shown@[i], lines@[i]),
    {
        let mut shown: Vec<ShownLine> = Vec::new();
        let mut i: usize = 0;
        while i < lines.len()
            invariant
                i <= lines.len(),
                shown@.len() == i,
                forall|j: int| 0 <= j < i ==> shows_line(#[trigger] shown@[j], lines@[j]),
            decreases lines.len() - i,
        {
            shown.push(
                ShownLine {
                    time: (lines[i].time.nanos / 1_000_000) as i32,
                    content: text_or_nothing(&lines[i].content),
                    translation: text_or_nothing(&lines[i].translation),
                },
            );
            i += 1;
        }
        shown
    }

    /// Decides which line is marked when the line `index` is sung and `count` lines are shown.
    /// No line is -1; what is marked stays if the line is not shown.
    pub fn lyrics_update_position(index: Option<usize>, count: usize) -> (marked: Option<i32>)
        ensures
            marked == marked_line(index, count),
            marked == (match index {
                None => Some(-1i32),
                Some(index) => if index < count {
                    Some(index as i32)
                } else {
                    None
                },
            }),
    {
        match index {
            None => Some(-1),
            Some(index) => {
                if index < count {
                    Some(index as i32)
                } else {
                    None
                }
            },
        }
    }

    /// Where playing goes on after a click on a line.
    pub fn lyrics_seek_to_line(lines: &Vec<LyricsLine>, index: i32) -> (time: Position)
        requires
            0 <= index < lines@.len(),
        ensures
            time == lines@[index as int].time,
    {
        lines[index as usize].time
    }

    /// Decides which song the page of the lyrics has to load, if any. The halves of its
    /// identifier are what the page is to remember.
    pub fn lyrics_page_reload(current: Option<u64>, shown: u64) -> (load: Option<(u64, i32, i32)>)
        ensures
            load is Some <==> current is Some && current->0 != shown,
            load is Some ==> {
                &&& (load->0).0 == current->0
                &&& joined_halves((load->0).1, (load->0).2) == current->0
            },
    {
        match current {
            Some(id) if id != shown => {
                let (id_1, id_2) = u64_to_i32x2(id);
                Some((id, id_1, id_2))
            },
            _ => None,
        }
    }

    /// Decides which cover the page of the lyrics has to load, once the details of its song are
    /// known: none if another song is current by then, or if nothing is known of the song.
    pub fn lyrics_page_tracks(current: Option<u64>, id: u64, tracks: &Vec<TrackDetail>) -> (cover:
        Option<CoverJob>)
        ensures
            cover is Some <==> current == Some(id) && tracks@.len() > 0,
            cover is Some ==> {
                &&& cover->0.row == 0
                &&& cover->0.id == tracks@[0].album.id
                &&& cover->0.url@ == tracks@[0].album.pic_url@
            },
    {
        if !App::is_still_current(current, id) || tracks.len() == 0 {
            return None;
        }
        let album = &tracks[0].album;
        Some(CoverJob { row: 0, id: album.id, url: album.pic_url.clone() })
    }

    /// Decides which cover the page of the lyrics shows: the one that came, if any, unless
    /// another song is current by then.
    pub fn lyrics_page_cover(current: Option<u64>, id: u64, cover: Option<String>) -> (shown:
        Option<String>)
        ensures
            shown == (if current == Some(id) {
                cover
            } else {
                None
            }),
    {
        if App::is_still_current(current, id) {
            cover
        } else {
            None
        }
    }

    /// Decides which background the page of the lyrics shows: the blurred cover, or the cover
    /// itself if it could not be blurred, unless another song is current by then.
    pub fn lyrics_page_background(
        current: Option<u64>,
        id: u64,
        cover: String,
        blurred: Option<String>,
    ) -> (shown: Option<String>)
        ensures
            shown == (if current != Some(id) {
                None
            } else if blurred is Some {
                blurred
            } else {
                Some(cover)
            }),
    {
        if !App::is_still_current(current, id) {
            return None;
        }
        match blurred {
            Some(blurred) => Some(blurred),
            None => Some(cover),
        }
    }

    /// Draws the login code that leads to an address, in blue on nothing.
    pub fn login_code_image(url: &str) -> (bytes: Option<Vec<u8>>)
        requires
            url@.len() < 0x200_0000,
        ensures
            match bytes {
                Some(bytes) => {
                    &&& qr_matrix(url@) is Some
                    &&& bytes@ == picture_bytes(
                        drawn(qr_matrix(url@)->0, 400, (0, 120, 212, 255), (0, 0, 0, 0)),
                    )
                },
                None => qr_matrix(url@) is None,
            },
    {
        AppLib::generate_qrcode_image(url, LOGIN_CODE_WIDTH, (0, 120, 212, 255), (0, 0, 0, 0))
    }
}

/// Lyrics that were fetched are shown only while their song is the current one, and then they
/// are not fetched again.
pub proof fn lemma_lyrics_are_fetched_once(current: Option<u64>, shown: u64)
    ensures
        match lyrics_action(current, shown) {
            LyricsAction::Fetch(id) => current == Some(id) && lyrics_action(current, id)
                == LyricsAction::Keep,
            _ => true,
        },
{
}

/// The page of a playlist shows what is known of it, each thing in its own place: the cover of the
/// playlist, and the name and the picture of its creator. A user cannot follow a playlist of
/// their own.
pub proof fn lemma_page_of_a_playlist(
    page: PlaylistPage,
    id: u64,
    playlist: PlaylistDetail,
    user: u64,
)
    requires
        shows_playlist(page, id, playlist, Some(user)),
    ensures
        page.name@ == playlist.name@,
        page.description@ == playlist.description@,
        page.play_count == playlist.play_count,
        page.track_count == playlist.track_count,
        page.subscribed == playlist.subscribed,
        page.creator_name@ == playlist.creator.nickname@,
        page.cover.id == id && page.cover.url@ == playlist.cover_img_url@,
        page.avatar.id == playlist.creator.id && page.avatar.url@ == playlist.creator.avatar_url@,
        !page.subscribable <==> playlist.creator.id == user,
        playlist.create_time <= i64::MAX ==> page.create_time == playlist.create_time,
{
}

/// The line that is sung is marked if it is shown; before the first line none is.
pub proof fn lemma_sung_line_is_marked(index: usize, count: usize)
    requires
        count <= i32::MAX,
    ensures
        index < count ==> marked_line(Some(index), count) == Some(index as i32),
        index >= count ==> marked_line(Some(index), count) is None,
        marked_line(None, count) == Some(-1i32),
{
}

/// Lyrics are fetched for a song whose lyrics are not shown yet, taken away for no song, and left
/// alone otherwise.
pub proof fn lemma_what_becomes_of_the_lyrics(id: u64, shown: u64)
    ensures
        lyrics_action(None, shown) == LyricsAction::Keep,
        lyrics_action(Some(shown), shown) == LyricsAction::Keep,
        id != shown && id != 0 ==> lyrics_action(Some(id), shown) == LyricsAction::Fetch(id),
        shown != 0 ==> lyrics_action(Some(0), shown) == LyricsAction::Clear,
{
}

/// A line of lyrics is shown with its time in milliseconds, its words and their translation; what
/// is missing is shown as nothing.
pub proof fn lemma_line_is_shown(shown: ShownLine, line: LyricsLine)
    requires
        shows_line(shown, line),
    ensures
        line.time.nanos / 1_000_000 <= i32::MAX ==> shown.time == line.time.nanos / 1_000_000,
        line.content matches Some(text) ==> shown.content@ == text@,
        line.content is None ==> shown.content@.len() == 0,
        line.translation matches Some(text) ==> shown.translation@ == text@,
        line.translation is None ==> shown.translation@.len() == 0,
{
}

} // verus!
