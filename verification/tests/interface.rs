use std::collections::HashSet;

use smt::app::App;
use smt::frame::{
    get_x_lparam, get_y_lparam, ClickAction, MessageAction, PixelRect, WindowChange, WM_NCDESTROY,
    WM_NCHITTEST,
};
use smt::model::{
    Account, AlbumInTrack, ArtistInTrack, PlaylistDetail, PlaylistShortInfo, TrackDetail,
    UserPlaylists,
};
use smt::navigator::{Navigator, NavigatorError, Route};
use smt::pages::{LyricsAction, LyricsLine};
use smt::player::{
    PlayMode, PlayOrderState, PlayStatus, PlayerStateFrame, PlaylistBase, Position, ShuffleState,
};
use smt::playing::StatusTrigger;
use smt::sidebar::{SideBarIcon, SideBarItemType, SidebarCovers};
use smt::songlist::{CoverBatch, PlayRequest};
use smt::types::{clock, to_track_detail_detail, SongDetail};
use smt::{i32x2_to_u64, u64_to_i32x2};

fn track(id: u64, artists: &[&str], duration: u32) -> TrackDetail {
    TrackDetail {
        album: AlbumInTrack {
            id: 17607058970,
            name: "album".to_string(),
            pic: 1,
            pic_url: "http://pic".to_string(),
            translation: vec![],
        },
        artist: artists
            .iter()
            .map(|name| ArtistInTrack { id: 1, name: name.to_string(), translation: vec![] })
            .collect(),
        id,
        name: format!("song {}", id),
        translation: vec![],
        duration,
        fee: 0,
    }
}

fn rows(selected: &[bool]) -> Vec<SongDetail> {
    let songs: Vec<TrackDetail> =
        (0..selected.len()).map(|i| track(i as u64 + 1, &["a"], 1000)).collect();
    let mut rows = App::to_songlist_model(&HashSet::from([2]), &songs);
    for (row, one) in rows.iter_mut().zip(selected) {
        row.selected = *one;
    }
    rows
}

fn selection(rows: &[SongDetail]) -> Vec<bool> {
    rows.iter().map(|row| row.selected).collect()
}

fn click(selected: &[bool], i: i32, select_type: i32) -> (i32, Vec<bool>) {
    let mut rows = rows(selected);
    let count = App::songlist_select(i, select_type, &mut rows);
    (count, selection(&rows))
}

fn playlist(id: u64, subscribed: bool) -> PlaylistShortInfo {
    PlaylistShortInfo {
        id,
        name: format!("list {}", id),
        cover_img_url: format!("http://{}", id),
        cover_img_id: id + 100,
        creator_id: 1,
        subscribed,
    }
}

fn at(ms: u64) -> Position {
    Position::from_millis(ms)
}

#[test]
fn paths_lead_to_playlists() {
    assert_eq!(Route::from_path("playlist/17607058970"), Some(Route::Playlist { id: 17607058970 }));
    assert_eq!(Route::from_path("playlist/5/more"), Some(Route::Playlist { id: 5 }));
    assert_eq!(Route::from_path("playlist/+5"), Some(Route::Playlist { id: 5 }));
    for path in ["", "home", "playlist", "playlist/", "playlist/x", "/playlist/5", "playlists/5"] {
        assert_eq!(Route::from_path(path), None);
    }
    assert_eq!(Route::from_path("playlist/18446744073709551616"), None);
}

#[test]
fn pages_have_numbers() {
    assert_eq!(Route::Home.discriminant(), 0);
    assert_eq!(Route::PlayQueue.discriminant(), 2);
    let action = Route::Playlist { id: 7 }.set_route();
    assert_eq!(action.route, 1);
    assert_eq!(action.load_playlist, Some(7));
    assert_eq!(Route::Home.set_route().load_playlist, None);
}

#[test]
fn the_way_back_and_forward() {
    let mut way = Navigator::new();
    assert_eq!(way.back(), Err(NavigatorError::NoMoreHistory));
    assert_eq!(way.forward(), Err(NavigatorError::NoMoreHistory));
    assert_eq!(way.to(Route::Home), Route::Home);
    way.to(Route::PlayQueue);
    way.to(Route::Playlist { id: 1 });
    assert_eq!(way.back(), Ok(Route::PlayQueue));
    assert_eq!(way.forward(), Ok(Route::Playlist { id: 1 }));
    way.back();
    assert_eq!(way.back(), Ok(Route::Home));
    way.to(Route::Playlist { id: 2 });
    assert_eq!(way.forward(), Err(NavigatorError::NoMoreHistory));
    assert_eq!(way.back(), Ok(Route::Home));
    // The place before the first visit has no page, but it can be gone to.
    assert_eq!(way.back(), Err(NavigatorError::NoRoute));
    assert_eq!(way.back(), Err(NavigatorError::NoMoreHistory));
    assert_eq!(way.forward(), Ok(Route::Home));
}

#[test]
fn steps_around_the_ring() {
    let way = Navigator::new();
    assert_eq!((way.next(0), way.next(98), way.next(99)), (1, 99, 0));
    assert_eq!((way.prev(0), way.prev(1), way.prev(99)), (99, 0, 98));
    for index in 0..100 {
        assert_eq!(way.prev(way.next(index)), index);
        assert_eq!(way.next(way.prev(index)), index);
    }
}

#[test]
fn the_way_is_bounded() {
    let mut way = Navigator::new();
    for id in 0..250 {
        way.to(Route::Playlist { id });
    }
    for id in (150..249).rev() {
        assert_eq!(way.back(), Ok(Route::Playlist { id }));
    }
    assert_eq!(way.back(), Err(NavigatorError::NoMoreHistory));
    for id in 151..250 {
        assert_eq!(way.forward(), Ok(Route::Playlist { id }));
    }
    assert_eq!(way.forward(), Err(NavigatorError::NoMoreHistory));
}

#[test]
fn lengths_of_songs() {
    assert_eq!(clock(0), "00:00");
    assert_eq!(clock(61_999), "01:01");
    assert_eq!(clock(3_599_000), "59:59");
    assert_eq!(clock(3_600_000), "01:00:00");
    assert_eq!(clock(u32::MAX), "1193:02:47");
}

#[test]
fn a_row_shows_a_song() {
    let loved = HashSet::from([17607058970]);
    let row = to_track_detail_detail(&loved, &track(17607058970, &["a", "b"], 61000));
    assert_eq!((row.id_1, row.id_2), (4, 427189786));
    assert_eq!((row.album_id_1, row.album_id_2), (4, 427189786));
    assert_eq!(row.singer, "a/b");
    assert_eq!(row.duration, "01:01");
    assert_eq!(row.album, "album");
    assert_eq!(row.name, "song 17607058970");
    assert_eq!(row.pic_url, "http://pic");
    assert!(row.loved && !row.selected);
    assert_eq!(to_track_detail_detail(&loved, &track(1, &["solo"], 0)).singer, "solo");
    let row = to_track_detail_detail(&loved, &track(1, &[], 0));
    assert_eq!(row.singer, "未知歌手");
    assert!(!row.loved);
}

#[test]
fn selecting_one_row() {
    assert_eq!(click(&[true, false, true], 1, 0), (1, vec![false, true, false]));
    assert_eq!(click(&[true, true, true], 1, 0), (0, vec![false, false, false]));
    assert_eq!(click(&[true, false, true], 3, 0), (2, vec![true, false, true]));
    assert_eq!(click(&[true, false, true], -1, 0), (2, vec![true, false, true]));
}

#[test]
fn turning_a_row_over() {
    assert_eq!(click(&[true, false], 1, 1), (2, vec![true, true]));
    assert_eq!(click(&[true, true], 1, 1), (1, vec![true, false]));
    assert_eq!(click(&[true, true], 2, 1), (2, vec![true, true]));
}

#[test]
fn selecting_a_range() {
    let f = false;
    let t = true;
    assert_eq!(click(&[f, t, f, f, f], 3, 2), (3, vec![f, t, t, t, f]));
    assert_eq!(click(&[f, f, f, t, f], 1, 2), (3, vec![f, t, t, t, f]));
    assert_eq!(click(&[t, f, f, t, f], 1, 2), (4, vec![t, t, t, t, f]));
    assert_eq!(click(&[f, f, f], 1, 2), (1, vec![f, t, f]));
    assert_eq!(click(&[f, f, f], 7, 2), (0, vec![f, f, f]));
    assert_eq!(click(&[f, t, f], 7, 2), (2, vec![f, t, t]));
    assert_eq!(click(&[], 0, 2), (0, vec![]));
}

#[test]
fn selecting_all() {
    assert_eq!(click(&[true, false], 0, 3), (2, vec![true, true]));
    assert_eq!(click(&[true, true], 0, 3), (0, vec![false, false]));
    assert_eq!(click(&[], 0, 3), (0, vec![]));
    assert_eq!(click(&[true, false], 0, 4), (1, vec![true, false]));
}

#[test]
fn playing_the_selection() {
    let (id_1, id_2) = u64_to_i32x2(17607058970);
    let base = PlaylistBase::Playlist(17607058970);
    let mut none = rows(&[false, false]);
    assert!(matches!(App::songlist_play(id_1, id_2, 1, &mut none, base), PlayRequest::Nothing));

    let mut one = rows(&[false, true]);
    match App::songlist_play(id_1, id_2, 1, &mut one, base) {
        PlayRequest::Play { song_id } => assert_eq!(song_id, 2),
        other => panic!("{:?}", other),
    }
    assert_eq!(selection(&one), vec![false, false]);

    let mut one = rows(&[false, true]);
    match App::songlist_play(id_1, id_2, 2, &mut one, base) {
        PlayRequest::ReplaceAndPlay { songs, base, song_id } => {
            assert_eq!(songs, vec![2]);
            assert_eq!(base, PlaylistBase::Album(17607058970));
            assert_eq!(song_id, 2);
        }
        other => panic!("{:?}", other),
    }

    let mut two = rows(&[true, false, true]);
    match App::songlist_play(id_1, id_2, 1, &mut two, base) {
        PlayRequest::ReplaceAndResume { songs, base } => {
            assert_eq!(songs, vec![1, 3]);
            assert_eq!(base, PlaylistBase::Playlist(17607058970));
        }
        other => panic!("{:?}", other),
    }
    assert_eq!(selection(&two), vec![false, false, false]);
}

#[test]
fn inserting_the_selection() {
    let mut list = rows(&[true, false, true]);
    assert_eq!(App::songlist_selected(&list), vec![1, 3]);
    assert_eq!(App::songlist_insert(&mut list), vec![1, 3]);
    assert_eq!(selection(&list), vec![false, false, false]);
    assert_eq!(App::songlist_insert(&mut list), vec![]);
    let mut list = rows(&[true, true]);
    App::songlist_clear_select(&mut list);
    assert_eq!(selection(&list), vec![false, false]);
    assert!(list[1].loved);
}

#[test]
fn where_a_list_came_from() {
    for base in [
        PlaylistBase::Playlist(17607058970),
        PlaylistBase::Album(2),
        PlaylistBase::Artist(u64::MAX),
        PlaylistBase::Nothing,
    ] {
        let (base_type, id_1, id_2) = App::base_numbers(base);
        assert_eq!(App::playlist_base(base_type, i32x2_to_u64(id_1, id_2)), base);
    }
    assert_eq!(App::base_numbers(PlaylistBase::Artist(1)), (3, 0, 1));
    assert_eq!(App::playlist_base(9, 1), PlaylistBase::Nothing);
}

#[test]
fn covers_of_rows() {
    let jobs = App::songlist_cover_jobs(&rows(&[false, false]));
    assert_eq!(jobs.len(), 2);
    assert_eq!(jobs[1].row, 1);
    assert_eq!(jobs[1].id, 17607058970);
    assert_eq!(jobs[1].url, "http://pic");
}

#[test]
fn covers_are_shown_together() {
    let mut batch: CoverBatch<char> = CoverBatch::new();
    let mut shown = Vec::new();
    for row in 0..20 {
        let cover = if row % 3 == 0 { None } else { Some((row, 'x')) };
        let now = batch.arrived(cover);
        assert!(now.is_empty() || now.len() == 8);
        shown.extend(now);
    }
    assert_eq!(shown.len(), 8);
    shown.extend(batch.finish());
    let rows: Vec<usize> = shown.iter().map(|cover| cover.0).collect();
    assert_eq!(rows, (0..20).filter(|row| row % 3 != 0).collect::<Vec<_>>());
}

#[test]
fn the_sidebar_is_built() {
    let lists = UserPlaylists {
        created: vec![playlist(1, false), playlist(2, false)],
        subscribed: vec![playlist(3, true)],
    };
    let (items, jobs) = App::sidebar_load(77, &lists);
    let names: Vec<&str> = items.iter().map(|item| item.name.as_str()).collect();
    assert_eq!(
        names,
        vec!["主页", "音乐库", "", "创建的歌单", "list 1", "list 2", "关注的歌单", "list 3"]
    );
    for (place, item) in items.iter().enumerate() {
        assert_eq!(item.index, place as i32);
        assert!(item.display && !item.expand);
        if item.father >= 0 {
            assert_eq!(items[item.father as usize].item_type, SideBarItemType::Container);
        }
    }
    assert_eq!(items[0].route, "home");
    assert_eq!(items[0].iconfont, "\u{e710}");
    assert_eq!(items[1].iconfont, "\u{e6fb}");
    assert_eq!(items[2].item_type, SideBarItemType::Divider);
    assert_eq!(items[3].route, "create_playlist");
    assert_eq!(items[6].route, "subscribe_playlist");
    assert_eq!(items[6].iconfont, "\u{e6f3}");
    assert_eq!((items[5].father, items[7].father, items[3].father), (3, 6, -1));
    assert_eq!((items[5].grade, items[6].grade), (1, 0));
    assert_eq!((items[5].icon, items[6].icon), (SideBarIcon::Music, SideBarIcon::Blank));
    assert_eq!(Route::from_path(&items[1].route), Some(Route::Playlist { id: 77 }));
    assert_eq!(Route::from_path(&items[7].route), Some(Route::Playlist { id: 3 }));
    let covers: Vec<(usize, u64, &str)> =
        jobs.iter().map(|job| (job.row, job.id, job.url.as_str())).collect();
    assert_eq!(covers, vec![(4, 101, "http://1"), (5, 102, "http://2"), (7, 103, "http://3")]);
    assert_eq!(SideBarItemType::Common.number(), 0);
    assert_eq!(SideBarItemType::Container.number(), 1);
    assert_eq!(SideBarItemType::Divider.number(), 2);
}

#[test]
fn the_sidebar_is_folded() {
    let lists = UserPlaylists { created: vec![playlist(1, false)], subscribed: vec![playlist(3, true)] };
    let (mut items, _) = App::sidebar_load(77, &lists);
    assert_eq!(App::sidebar_show(&items), vec![0, 1, 2, 3, 5]);
    assert!(App::siderbar_expand(&mut items, 3));
    assert_eq!(App::sidebar_show(&items), vec![0, 1, 2, 3, 4, 5]);
    assert!(App::siderbar_expand(&mut items, 3));
    assert_eq!(App::sidebar_show(&items), vec![0, 1, 2, 3, 5]);
    assert!(!App::siderbar_expand(&mut items, 40));
    App::siderbar_expand(&mut items, 3);
    App::siderbar_expand(&mut items, 5);
    assert_eq!(App::sidebar_show(&items).len(), 7);
    App::sidebar_toggle(&mut items);
    assert_eq!(App::sidebar_show(&items), vec![0, 1, 2, 3, 5]);
    items[0].father = 99;
    assert_eq!(App::sidebar_show(&items)[0], 0);
}

#[test]
fn the_sidebar_is_shown_anew_at_every_tenth_cover() {
    let mut covers: SidebarCovers<u8> = SidebarCovers::new();
    let mut batches = Vec::new();
    let mut times = Vec::new();
    for row in 0..25 {
        let (now, show) = covers.arrived(Some((row, 0)));
        if !now.is_empty() {
            batches.push(now.len());
        }
        if show {
            times.push(row);
        }
    }
    assert_eq!(batches, vec![8, 8, 8]);
    assert_eq!(times, vec![9, 19]);
    assert_eq!(covers.finish(), vec![(24, 0)]);
}

#[test]
fn where_the_pointer_is() {
    assert_eq!(get_x_lparam(0x0005_0003), 3);
    assert_eq!(get_y_lparam(0x0005_0003), 5);
    assert_eq!(get_x_lparam(0x0000_fffe), -2);
    assert_eq!(get_y_lparam(0xfff0_0001), -16);
    assert_eq!(get_x_lparam(-1), -1);
    assert_eq!(get_y_lparam(-1), -1);
}

#[test]
fn messages_of_the_window() {
    let title = Some(PixelRect { x: 0, y: 0, width: 100, height: 20 });
    let corner = Some((1000, 500));
    let at = |x: i32, y: i32| App::window_message(WM_NCHITTEST, x, y, corner, title);
    assert_eq!(at(1000, 500), MessageAction::Caption);
    assert_eq!(at(1099, 519), MessageAction::Caption);
    assert_eq!(at(1100, 519), MessageAction::Forward);
    assert_eq!(at(1099, 520), MessageAction::Forward);
    assert_eq!(at(999, 510), MessageAction::Forward);
    assert_eq!(App::window_message(WM_NCHITTEST, 1000, 500, None, title), MessageAction::Forward);
    assert_eq!(App::window_message(WM_NCHITTEST, 1000, 500, corner, None), MessageAction::Forward);
    assert_eq!(
        App::window_message(WM_NCDESTROY, 1000, 500, corner, title),
        MessageAction::RemoveAndForward
    );
    assert_eq!(App::window_message(1, 1000, 500, corner, title), MessageAction::Forward);
    // A window that is far away, and a title bar that is very large.
    let far = Some((i32::MIN, i32::MIN));
    let large = Some(PixelRect { x: 5, y: 5, width: i32::MAX, height: i32::MAX });
    assert_eq!(
        App::window_message(WM_NCHITTEST, i32::MAX, 0, far, large),
        MessageAction::Forward
    );
    assert_eq!(App::window_message(WM_NCHITTEST, 3, 3, far, large), MessageAction::Caption);
    assert_eq!(App::window_message(1, i32::MAX, 0, far, large), MessageAction::Forward);
}

#[test]
fn clicks_on_the_title_bar() {
    assert_eq!(App::title_bar_click(false, Some(1)), ClickAction::Propagate);
    assert_eq!(App::title_bar_click(true, None), ClickAction::Drag);
    assert_eq!(App::title_bar_click(true, Some(350_000_000)), ClickAction::ToggleMaximized);
    assert_eq!(App::title_bar_click(true, Some(350_000_001)), ClickAction::Drag);
}

#[test]
fn maximising() {
    assert_eq!(
        App::maximize(true),
        vec![WindowChange::SetMaximized(false), WindowChange::SetResizable(true)]
    );
    assert_eq!(
        App::maximize(false),
        vec![
            WindowChange::SetMaximized(true),
            WindowChange::SetResizable(false),
            WindowChange::SetResizable(true)
        ]
    );
}

#[test]
fn lengths_of_time() {
    assert_eq!(App::format_duration(at(0)), "0:00:00");
    assert_eq!(App::format_duration(at(61_999)), "0:01:01");
    assert_eq!(App::format_duration(at(36_000_000)), "10:00:00");
}

#[test]
fn what_is_reloaded() {
    assert_eq!(App::song_to_reload(Some(5), 5, false), None);
    assert_eq!(App::song_to_reload(Some(5), 4, true), Some(5));
    assert_eq!(App::song_to_reload(None, 4, true), Some(0));
    assert_eq!(App::song_to_reload(None, 0, false), Some(0));
    assert_eq!(App::song_to_reload(None, 0, true), None);
}

#[test]
fn what_a_turn_shows() {
    let frame = |play_status, play_mode, shuffle_state| PlayerStateFrame {
        play_status,
        play_order: PlayOrderState { play_mode, shuffle_state },
    };
    let view = App::event_loop(&frame(
        PlayStatus::Playing(at(61_500)),
        PlayMode::LoopAll,
        ShuffleState::Enabled,
    ));
    assert_eq!(view.status, StatusTrigger::Playing);
    assert_eq!(view.played, Some(("0:01:01".to_string(), 61_500)));
    assert_eq!(view.loop_type, 2);
    assert!(view.shuffled);
    let view = App::event_loop(&frame(
        PlayStatus::Paused(at(1)),
        PlayMode::LoopOne,
        ShuffleState::Disabled,
    ));
    assert_eq!((view.status, view.loop_type, view.shuffled), (StatusTrigger::Pause, 1, false));
    let view =
        App::event_loop(&frame(PlayStatus::Stopped, PlayMode::Sequence, ShuffleState::Disabled));
    assert_eq!((view.status, view.loop_type), (StatusTrigger::Idle, 0));
    assert_eq!(view.played, None);
    let view =
        App::event_loop(&frame(PlayStatus::Downloading, PlayMode::Sequence, ShuffleState::Disabled));
    assert_eq!(view.status, StatusTrigger::Loading);
}

#[test]
fn a_song_before_its_details() {
    let song = App::reload_playing_song(0);
    assert_eq!(song.name, "无音乐");
    assert_eq!(song.duration, "0:00:00");
    let song = App::reload_playing_song(17607058970);
    assert_eq!(song.name, "");
    assert_eq!(i32x2_to_u64(song.id_1, song.id_2), 17607058970);
    assert_eq!(App::song_to_reload(Some(17607058970), i32x2_to_u64(song.id_1, song.id_2), false), None);
}

#[test]
fn a_song_with_its_details() {
    let tracks = vec![track(5, &["a"], 3_661_000)];
    let loved = HashSet::from([5]);
    assert!(App::playing_song_loaded(Some(4), 5, &tracks, &loved).is_none());
    assert!(App::playing_song_loaded(None, 5, &tracks, &loved).is_none());
    assert!(App::playing_song_loaded(Some(4), 5, &vec![], &loved).is_none());
    let loaded = App::playing_song_loaded(Some(5), 5, &tracks, &loved).unwrap();
    assert_eq!(loaded.total_duration, "1:01:01");
    assert_eq!(loaded.total_duration_int, 3_661_000);
    assert!(loaded.song.loved);
    assert_eq!(loaded.cover.id, 17607058970);
    assert!(App::is_still_current(Some(5), 5));
    assert!(!App::is_still_current(Some(4), 5));
}

#[test]
fn the_page_of_a_playlist() {
    let playlist = PlaylistDetail {
        id: 5,
        name: "list".to_string(),
        cover_img_id: 6,
        cover_img_url: "http://c".to_string(),
        description: "d".to_string(),
        creator: Account {
            id: 8,
            nickname: "n".to_string(),
            avatar_url: "http://a".to_string(),
            ..Account::default()
        },
        create_time: 1_600_000_000_000,
        play_count: 2_147_483_647,
        subscribed: true,
        track_count: -1,
        track_ids: vec![],
    };
    let page = App::playlist_load_data(5, &playlist, Some(8));
    assert!(!page.subscribable);
    assert!(App::playlist_load_data(5, &playlist, Some(9)).subscribable);
    assert!(App::playlist_load_data(5, &playlist, None).subscribable);
    assert_eq!(page.play_count, i32::MAX);
    assert_eq!(page.track_count, -1);
    assert_eq!(page.creator_name, "n");
    assert_eq!(page.create_time, 1_600_000_000_000);
    assert_eq!((page.cover.id, page.cover.url.as_str()), (5, "http://c"));
    assert_eq!((page.avatar.id, page.avatar.url.as_str()), (8, "http://a"));
}

#[test]
fn when_the_queue_is_loaded() {
    assert!(App::play_queue_load_data(None, 5));
    assert!(App::play_queue_load_data(Some(5), 5));
    assert!(!App::play_queue_load_data(Some(6), 5));
}

#[test]
fn what_becomes_of_lyrics() {
    assert_eq!(App::lyrics_reload(None, 3), LyricsAction::Keep);
    assert_eq!(App::lyrics_reload(Some(3), 3), LyricsAction::Keep);
    assert_eq!(App::lyrics_reload(Some(0), 3), LyricsAction::Clear);
    assert_eq!(App::lyrics_reload(Some(4), 3), LyricsAction::Fetch(4));
    assert_eq!(App::lyrics_page_reload(None, 3), None);
    assert_eq!(App::lyrics_page_reload(Some(3), 3), None);
    assert_eq!(
        App::lyrics_page_reload(Some(17607058970), 3),
        Some((17607058970, 4, 427189786))
    );
}

#[test]
fn lines_of_lyrics() {
    let lines = vec![
        LyricsLine { time: at(1500), content: Some("la".to_string()), translation: None },
        LyricsLine { time: at(9000), content: None, translation: Some("li".to_string()) },
    ];
    let shown = App::lyrics_lines(&lines);
    assert_eq!((shown[0].time, shown[0].content.as_str(), shown[0].translation.as_str()), (1500, "la", ""));
    assert_eq!((shown[1].time, shown[1].content.as_str(), shown[1].translation.as_str()), (9000, "", "li"));
    assert_eq!(App::lyrics_seek_to_line(&lines, 1), at(9000));
    assert_eq!(App::lyrics_update_position(None, 2), Some(-1));
    assert_eq!(App::lyrics_update_position(Some(1), 2), Some(1));
    assert_eq!(App::lyrics_update_position(Some(2), 2), None);
}

#[test]
fn the_page_of_the_lyrics_is_filled() {
    let tracks = vec![track(5, &["a"], 1000)];
    let cover = App::lyrics_page_tracks(Some(5), 5, &tracks).unwrap();
    assert_eq!((cover.id, cover.url.as_str()), (17607058970, "http://pic"));
    assert!(App::lyrics_page_tracks(Some(4), 5, &tracks).is_none());
    assert!(App::lyrics_page_tracks(Some(5), 5, &vec![]).is_none());
    let path = || Some("cover.jpg".to_string());
    assert_eq!(App::lyrics_page_cover(Some(5), 5, path()), path());
    assert_eq!(App::lyrics_page_cover(None, 5, path()), None);
    assert_eq!(App::lyrics_page_cover(Some(5), 5, None), None);
    let blurred = Some("blurred.jpg".to_string());
    let background = |current, blurred| {
        App::lyrics_page_background(current, 5, "cover.jpg".to_string(), blurred)
    };
    assert_eq!(background(Some(5), blurred.clone()), blurred);
    assert_eq!(background(Some(5), None), path());
    assert_eq!(background(Some(6), blurred), None);
}
