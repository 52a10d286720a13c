use std::collections::HashSet;

use smt::app::App;
use smt::app_lib::AppLib;
use smt::model::{Account, AlbumInTrack, ArtistInTrack, PlaylistDetail, TrackDetail};
use smt::qr::draw_modules;

fn track(id: u64, name: &str) -> TrackDetail {
    TrackDetail {
        album: AlbumInTrack {
            id: id + 1000,
            name: "album".to_string(),
            pic: 1,
            pic_url: "http://pic".to_string(),
            translation: vec![],
        },
        artist: vec![ArtistInTrack { id: 1, name: "artist".to_string(), translation: vec![] }],
        id,
        name: name.to_string(),
        translation: vec!["t".to_string()],
        duration: 61000,
        fee: 0,
    }
}

fn account(id: u64) -> Account {
    Account { id, nickname: "n".to_string(), ..Account::default() }
}

fn app_lib() -> AppLib {
    AppLib::new(None, None, None, "speakers".to_string(), None)
}

fn names(tracks: &[TrackDetail]) -> Vec<&str> {
    tracks.iter().map(|track| track.name.as_str()).collect()
}

#[test]
fn the_application_starts_logged_out() {
    let app = app_lib();
    assert!(app.login_user.is_none());
    assert!(app.loved_ids.is_empty());
    assert_eq!(app.client.client_cookie(), "");
    assert_eq!(app.config.cache_dir, "D:/code/smt/smt/cache");
    let app = AppLib::new(
        Some("c".to_string()),
        None,
        Some(HashSet::from([1])),
        "speakers".to_string(),
        None,
    );
    assert!(app.loved_ids.is_empty());
    assert_eq!(app.client.client_cookie(), "c");
    let status = App::new(app).load_app_status();
    assert!(!status.logined);
    assert_eq!(status.login_id, None);
}

#[test]
fn the_application_starts_logged_in() {
    let app = AppLib::new(
        None,
        Some(account(17607058970)),
        Some(HashSet::from([1, 2])),
        "speakers".to_string(),
        None,
    );
    assert_eq!(app.loved_ids.len(), 2);
    let status = App::new(app).load_app_status();
    assert!(status.logined);
    assert_eq!(status.login_id, Some((4, 427189786)));
}

#[test]
fn logging_in_later() {
    let mut app = app_lib();
    assert!(!app.init(None, Some(HashSet::from([1]))));
    assert!(app.login_user.is_none() && app.loved_ids.is_empty());
    assert!(app.init(Some(account(3)), Some(HashSet::from([1]))));
    assert_eq!(app.login_user.as_ref().unwrap().id, 3);
    assert!(app.loved_ids.contains(&1));
    assert!(app.init(Some(account(4)), None));
    assert!(app.loved_ids.is_empty());
}

#[test]
fn images_have_names_of_their_own() {
    let cover = AppLib::get_album_cover(5, "http://u", "d", 72);
    assert_eq!(cover.png, "Album_5_72.png");
    assert_eq!(cover.key, "d|Album_5_72|72|72");
    assert_eq!(cover.url, "http://u?param=72y72");
    assert_eq!(AppLib::get_playlist_cover(5, "u", "d", 400).jpg, "Playlist_5_400.jpg");
    assert_eq!(AppLib::get_avatar(5, "u", "d", 72).png, "Avatar_5_72.png");
    assert_ne!(
        AppLib::get_avatar(57, "u", "d", 2).png,
        AppLib::get_avatar(5, "u", "d", 72).png
    );
}

#[test]
fn songs_are_fetched_once() {
    let mut app = app_lib();
    let ids = vec![3, 1, 2, 1];
    assert_eq!(app.uncached_tracks(&ids), ids);
    let fetched = vec![track(1, "one"), track(2, "two"), track(9, "other"), track(2, "two again")];
    let tracks = app.get_tracks_cached(&ids, fetched);
    // Song 3 came from nowhere; song 1 was wanted twice and fetched once.
    assert_eq!(names(&tracks), vec!["one", "two again", "one"]);
    assert_eq!(app.uncached_tracks(&ids), vec![3]);
    let tracks = app.get_tracks_cached(&ids, vec![track(3, "three"), track(1, "not asked")]);
    assert_eq!(names(&tracks), vec!["three", "one", "two again", "one"]);
    assert_eq!(tracks[1].album.id, 1001);
    assert_eq!(tracks[1].artist[0].name, "artist");
    assert_eq!(tracks[1].translation, vec!["t"]);
}

#[test]
fn many_songs_are_all_kept() {
    let mut app = app_lib();
    let ids: Vec<u64> = (0..5000).collect();
    let fetched = ids.iter().map(|id| track(*id, "song")).collect();
    assert_eq!(app.get_tracks_cached(&ids, fetched).len(), 5000);
    assert!(app.uncached_tracks(&ids).is_empty());
    assert_eq!(app.uncached_tracks(&vec![4999, 5000]), vec![5000]);
    let tracks = app.get_tracks_cached(&ids, vec![]);
    assert!(tracks.iter().map(|track| track.id).eq(ids));
}

#[test]
fn playlists_are_kept() {
    let mut app = app_lib();
    assert!(app.cached_playlist(5).is_none());
    assert!(app.get_playlist_cached(5, None).is_none());
    let playlist = PlaylistDetail {
        id: 5,
        name: "list".to_string(),
        cover_img_id: 6,
        cover_img_url: "u".to_string(),
        description: "d".to_string(),
        creator: account(8),
        create_time: 1,
        play_count: 2,
        subscribed: false,
        track_count: 1,
        track_ids: vec![7],
    };
    assert_eq!(app.get_playlist_cached(5, Some(playlist)).unwrap().name, "list");
    let kept = app.cached_playlist(5).unwrap();
    assert_eq!(kept.name, "list");
    assert_eq!(kept.creator.id, 8);
    assert_eq!(kept.track_ids, vec![7]);
    assert!(app.cached_playlist(6).is_none());
}

#[test]
fn modules_are_drawn_as_squares() {
    let matrix = vec![vec![true, false], vec![false, true]];
    let dark = (1, 2, 3, 4);
    let light = (9, 9, 9, 9);
    let bytes = draw_modules(&matrix, 5, dark, light);
    assert_eq!(bytes.len(), 4 * 5 * 5);
    let pixel = |x: usize, y: usize| {
        let at = 4 * (y * 5 + x);
        (bytes[at], bytes[at + 1], bytes[at + 2], bytes[at + 3])
    };
    for y in 0..5 {
        for x in 0..5 {
            let wanted = if x == 4 || y == 4 {
                (0, 0, 0, 0)
            } else if (x < 2) == (y < 2) {
                dark
            } else {
                light
            };
            assert_eq!(pixel(x, y), wanted);
        }
    }
    assert!(draw_modules(&matrix, 1, dark, light).iter().all(|byte| *byte == 0));
}

#[test]
fn a_code_is_drawn() {
    let dark = (0, 120, 212, 255);
    let light = (0, 0, 0, 0);
    let bytes = AppLib::generate_qrcode_image("Hello", 21, dark, light).unwrap();
    assert_eq!(bytes.len(), 4 * 21 * 21);
    // The top row of a code of the smallest size starts with seven dark modules and a light one.
    for x in 0..7 {
        assert_eq!(&bytes[4 * x..4 * x + 4], &[0, 120, 212, 255]);
    }
    assert_eq!(&bytes[28..32], &[0, 0, 0, 0]);
    let again = AppLib::generate_qrcode_image("Hello", 21, dark, light).unwrap();
    assert_eq!(bytes, again);
    let other = AppLib::generate_qrcode_image("World", 21, dark, light).unwrap();
    assert_ne!(bytes, other);
    let long = "x".repeat(4000);
    assert!(AppLib::generate_qrcode_image(&long, 21, dark, light).is_none());
}

#[test]
fn the_login_code() {
    let bytes = App::login_code_image("https://music.163.com/login?codekey=abc").unwrap();
    assert_eq!(bytes.len(), 4 * 400 * 400);
    assert_eq!(&bytes[0..4], &[0, 120, 212, 255]);
    assert!(App::login_code_image(&"x".repeat(4000)).is_none());
}
