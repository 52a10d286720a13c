use std::collections::HashMap;

use smt::api::download::{Attempt, DownloadError, DownloadStep};
use smt::api::images::{downloading_name, ImageKind, ImageStep};
use smt::api::songs::{SearchStep, SongBatch, AUDIO_EXTENSION_COUNT};
use smt::api::{ApiError, ApiRequest, Endpoint, MusicQuality, NcmApi};
use smt::json::Json;
use smt::model::{PlaylistShortInfo, QrCode, TrackUrl};

fn params(request: &ApiRequest) -> Vec<(&str, &str)> {
    request.params.iter().map(|param| (param.0.as_str(), param.1.as_str())).collect()
}

fn body(name: &str, value: Json) -> Json {
    Json::Object(vec![(name.to_string(), value)])
}

fn short(id: u64, subscribed: bool) -> PlaylistShortInfo {
    PlaylistShortInfo {
        id,
        name: format!("list {}", id),
        cover_img_url: "http://c".to_string(),
        cover_img_id: id + 100,
        creator_id: 1,
        subscribed,
    }
}

fn url(id: u64, address: Option<&str>) -> TrackUrl {
    TrackUrl { bitrate: Some(320000), url: address.map(|address| address.to_string()), id }
}

#[test]
fn names_of_qualities() {
    let all = [
        (MusicQuality::Standard, "standard"),
        (MusicQuality::Higher, "higher"),
        (MusicQuality::ExHigh, "exhigh"),
        (MusicQuality::Lossless, "lossless"),
        (MusicQuality::HiRes, "hires"),
        (MusicQuality::JyEffect, "jyeffect"),
        (MusicQuality::Sky, "sky"),
        (MusicQuality::Dolby, "dolby"),
        (MusicQuality::JyMaster, "jymaster"),
    ];
    for (quality, name) in all {
        assert_eq!(quality.to_str(), name);
        assert_eq!(quality.to_string(), name);
        for (other, other_name) in all {
            assert_eq!(quality == other, name == other_name);
        }
    }
}

#[test]
fn identifiers_with_commas() {
    assert_eq!(NcmApi::comma_ids(&vec![740558, 26133345, 740611]), "740558,26133345,740611");
    assert_eq!(NcmApi::comma_ids(&vec![5]), "5");
    assert_eq!(NcmApi::comma_ids(&vec![]), "");
}

#[test]
fn requests() {
    let request = NcmApi::user_account();
    assert_eq!(request.endpoint, Endpoint::UserAccount);
    assert!(request.params.is_empty() && !request.random_cn_ip);

    let request = NcmApi::login_qrcode();
    assert_eq!(request.endpoint, Endpoint::LoginQrKey);
    assert!(request.params.is_empty() && request.random_cn_ip);

    let code = QrCode { unikey: "k".to_string(), url: "u".to_string() };
    let request = NcmApi::login_check_qrcode(&code);
    assert_eq!(request.endpoint, Endpoint::LoginQrCheck);
    assert_eq!(params(&request), vec![("key", "k")]);
    assert!(request.random_cn_ip);

    let request = NcmApi::playlist_detail(17607058970, None);
    assert_eq!(request.endpoint, Endpoint::PlaylistDetail);
    assert_eq!(params(&request), vec![("id", "17607058970")]);
    let request = NcmApi::playlist_detail(1, Some(-8));
    assert_eq!(params(&request), vec![("id", "1"), ("s", "-8")]);

    assert!(NcmApi::songs_detail(&vec![]).is_none());
    let request = NcmApi::songs_detail(&vec![1, 2]).unwrap();
    assert_eq!(request.endpoint, Endpoint::SongDetail);
    assert_eq!(params(&request), vec![("ids", "1,2")]);

    let request = NcmApi::like_list(3);
    assert_eq!(request.endpoint, Endpoint::Likelist);
    assert_eq!(params(&request), vec![("uid", "3")]);

    let request = NcmApi::user_playlist(4);
    assert_eq!(request.endpoint, Endpoint::UserPlaylist);
    assert_eq!(params(&request), vec![("uid", "4")]);

    let request = NcmApi::songs_url(&vec![1, 2], MusicQuality::ExHigh);
    assert_eq!(request.endpoint, Endpoint::SongUrlV1);
    assert_eq!(params(&request), vec![("id", "1,2"), ("level", "exhigh")]);
    assert!(!request.random_cn_ip);
}

#[test]
fn login_answers() {
    let code = NcmApi::login_qrcode_answer(&body("unikey", Json::Text("abc".to_string()))).unwrap();
    assert_eq!(code.unikey, "abc");
    assert_eq!(code.url, "https://music.163.com/login?codekey=abc");
    let error = NcmApi::login_qrcode_answer(&Json::Null).unwrap_err();
    assert_eq!(error, ApiError::NoUnikey);
    assert_eq!(error.message(), "no unikey in response");
    let cookies = vec!["a=1; ".to_string(), "b=2".to_string()];
    assert_eq!(NcmApi::login_check_qrcode_answer(&cookies), "a=1; b=2");
}

#[test]
fn liked_songs() {
    let list = Json::List(vec![Json::Unsigned(3), Json::Unsigned(1), Json::Unsigned(3)]);
    let ids = NcmApi::like_list_answer(&body("ids", list)).unwrap();
    assert_eq!(ids.len(), 2);
    assert!(ids.contains(&1) && ids.contains(&3));
    let list = Json::List(vec![Json::Unsigned(3), Json::Negative(-1)]);
    let error = NcmApi::like_list_answer(&body("ids", list)).unwrap_err();
    assert_eq!(error, ApiError::IdsNotParsed);
    assert_eq!(error.message(), "failed to parse ids");
    assert!(NcmApi::like_list_answer(&Json::Null).is_err());
}

#[test]
fn playlists_are_told_apart() {
    let answer = body("playlist", Json::List(vec![]));
    let all = vec![Some(short(1, false)), Some(short(2, true)), Some(short(3, false))];
    let lists = NcmApi::user_playlist_answer(&answer, all).unwrap();
    assert_eq!(lists.created.iter().map(|list| list.id).collect::<Vec<_>>(), vec![1, 3]);
    assert_eq!(lists.subscribed.iter().map(|list| list.id).collect::<Vec<_>>(), vec![2]);
    let error = NcmApi::user_playlist_answer(&Json::Null, vec![]).unwrap_err();
    assert_eq!(error, ApiError::PlaylistNotFound);
    assert_eq!(error.message(), "playlist not found");
    let error = NcmApi::user_playlist_answer(&answer, vec![Some(short(1, false)), None]).unwrap_err();
    assert_eq!(error, ApiError::EntryNotParsed);
    assert_eq!(error.message(), "failed to parse an entry");
}

#[test]
fn song_answers() {
    let error = NcmApi::songs_detail_answer(&Json::Null, vec![]).unwrap_err();
    assert_eq!(error, ApiError::SongsNotFound);
    assert_eq!(error.message(), "songs not found");
    let answer = body("songs", Json::List(vec![]));
    assert!(NcmApi::songs_detail_answer(&answer, vec![]).unwrap().is_empty());
    assert!(NcmApi::songs_detail_answer(&answer, vec![None]).is_err());

    let answer = body("data", Json::List(vec![]));
    let urls = vec![url(1, Some("a")), url(2, None), url(1, Some("b"))];
    let urls = NcmApi::songs_url_answer(&answer, urls).unwrap();
    assert_eq!(urls.len(), 2);
    assert_eq!(urls[&1].url, Some("b".to_string()));
    let error = NcmApi::songs_url_answer(&Json::Null, vec![]).unwrap_err();
    assert_eq!(error, ApiError::DataNotFound);
    assert_eq!(error.message(), "data not found in get_songs_url response");
}

#[test]
fn downloads_keep_their_cookie() {
    let mut api = NcmApi::new("first");
    api.set_cookie("second");
    assert_eq!(api.client_cookie(), "second");
    assert_eq!(api.download_cookie(), "first");
    let headers = api.download_headers();
    assert_eq!(headers.len(), 5);
    assert_eq!(headers[1], ("referer".to_string(), "https://music.163.com/".to_string()));
    assert_eq!(headers[2].1, "no-cache");
    assert_eq!(headers[3].0, "pragma");
    assert_eq!(headers[4], ("cookie".to_string(), "first".to_string()));
    assert_eq!(NcmApi::new("").download_headers().len(), 4);
}

#[test]
fn statuses_worth_retrying() {
    for status in [429u16, 500, 503, 599] {
        assert!(NcmApi::should_retry_status(status));
    }
    for status in [200u16, 301, 400, 404, 428, 430, 499, 600] {
        assert!(!NcmApi::should_retry_status(status));
    }
}

#[test]
fn downloads_are_tried_three_times() {
    let failed = Attempt::SendFailed;
    assert_eq!(NcmApi::download_bytes(0, failed), DownloadStep::Retry(150));
    assert_eq!(NcmApi::download_bytes(1, failed), DownloadStep::Retry(300));
    assert_eq!(
        NcmApi::download_bytes(2, failed),
        DownloadStep::Fail(DownloadError::SendFailed)
    );
    assert_eq!(NcmApi::download_bytes(0, Attempt::Body(0)), DownloadStep::Retry(150));
    assert_eq!(
        NcmApi::download_bytes(2, Attempt::Body(0)),
        DownloadStep::Fail(DownloadError::EmptyFile)
    );
    assert_eq!(NcmApi::download_bytes(0, Attempt::Body(10)), DownloadStep::Done);
    assert_eq!(NcmApi::download_bytes(1, Attempt::BadStatus(503)), DownloadStep::Retry(300));
    assert_eq!(
        NcmApi::download_bytes(0, Attempt::BadStatus(404)),
        DownloadStep::Fail(DownloadError::BadStatus(404))
    );
    assert_eq!(
        NcmApi::download_bytes(0, Attempt::BodyFailed),
        DownloadStep::Fail(DownloadError::BodyFailed)
    );
}

#[test]
fn kinds_of_images() {
    let png = [0x89u8, b'P', b'N', b'G', 0x0D, 0x0A, 0x1A, 0x0A, 1];
    assert_eq!(NcmApi::detect_image_extension(&png), Ok("png"));
    assert_eq!(NcmApi::detect_image_extension(&[0xFF, 0xD8, 0xFF]), Ok("jpg"));
    assert_eq!(NcmApi::detect_image_extension(&png[0..7]), Err(ApiError::UnsupportedImage));
    assert_eq!(NcmApi::detect_image_extension(&[]), Err(ApiError::UnsupportedImage));
    assert_eq!(
        ApiError::UnsupportedImage.message(),
        "unsupported image format, only png/jpg are allowed"
    );
}

#[test]
fn kinds_of_sounds() {
    assert_eq!(NcmApi::detect_audio_extension(b"fLaC"), Ok("flac"));
    assert_eq!(NcmApi::detect_audio_extension(b"OggS..."), Ok("ogg"));
    assert_eq!(NcmApi::detect_audio_extension(b"ID3"), Ok("mp3"));
    assert_eq!(NcmApi::detect_audio_extension(&[0xFF, 0xE0]), Ok("mp3"));
    assert_eq!(NcmApi::detect_audio_extension(&[0xFF, 0xFB]), Ok("mp3"));
    assert_eq!(NcmApi::detect_audio_extension(b"RIFF....WAVE"), Ok("wav"));
    assert_eq!(NcmApi::detect_audio_extension(b"....ftyp...."), Ok("m4a"));
    for bytes in [&b"RIFF....WAV"[..], b"....ftyp", b"", &[0xFF], &[0xFF, 0xDF], b"text"] {
        assert_eq!(NcmApi::detect_audio_extension(bytes), Err(ApiError::UnsupportedAudio));
    }
    assert_eq!(
        ApiError::UnsupportedAudio.message(),
        "unsupported audio format, only mp3/flac/wav/ogg/m4a/aac are allowed"
    );
}

#[test]
fn raw_aac_counts_as_mp3() {
    assert_eq!(NcmApi::detect_audio_extension(&[0xFF, 0xF1, 0]), Ok("mp3"));
    assert_eq!(NcmApi::detect_audio_extension(&[0xFF, 0xF9]), Ok("mp3"));
}

#[test]
fn an_image_is_described() {
    let request = NcmApi::get_image("Album_1_72", "http://p", "cache/image", 72, 70);
    assert_eq!(request.key, "cache/image|Album_1_72|72|70");
    assert_eq!(request.url, "http://p?param=72y70");
    assert_eq!(request.png, "Album_1_72.png");
    assert_eq!(request.jpg, "Album_1_72.jpg");
    assert_eq!(downloading_name(&request.png), "Album_1_72.png.downloading");
    let png = [0x89u8, b'P', b'N', b'G', 0x0D, 0x0A, 0x1A, 0x0A];
    assert_eq!(request.file_for(&png), Ok("Album_1_72.png".to_string()));
    assert_eq!(request.file_for(&[0xFF, 0xD8, 0xFF, 0]), Ok("Album_1_72.jpg".to_string()));
    assert_eq!(request.file_for(b"no"), Err(ApiError::UnsupportedImage));
}

#[test]
fn an_image_is_looked_for_before_it_is_claimed() {
    let first = ImageStep::first();
    assert_eq!(first, ImageStep::Look(ImageKind::Png));
    assert_eq!(first.after(true), ImageStep::Found(ImageKind::Png));
    let second = first.after(false);
    assert_eq!(second, ImageStep::Look(ImageKind::Jpg));
    assert_eq!(second.after(true), ImageStep::Found(ImageKind::Jpg));
    let claim = second.after(false);
    assert_eq!(claim, ImageStep::Claim);
    assert_eq!(claim.after(true), ImageStep::Download);
    assert_eq!(claim.after(false), ImageStep::Wait);
    assert_eq!(ImageStep::Wait.after(true), first);
    assert_eq!(ImageStep::Download.after(true), ImageStep::Download);
}

#[test]
fn an_image_is_claimed_once() {
    let mut api = NcmApi::new("");
    assert!(api.claim_image("a"));
    assert!(!api.claim_image("a"));
    assert!(api.claim_image("b"));
    api.release_image("b");
    assert!(!api.claim_image("a"));
    api.release_image("a");
    api.release_image("a");
    assert!(api.claim_image("a"));
}

#[test]
fn the_file_of_a_song_is_looked_for() {
    let look = |present: usize| {
        let mut step = SearchStep::first();
        let mut discarded = Vec::new();
        loop {
            match step {
                SearchStep::Probe(index) => step = step.after(index >= present),
                SearchStep::Discard(index) => {
                    discarded.push(index);
                    step = step.after(false);
                }
                SearchStep::Found(index) => return (Some(index), discarded),
                SearchStep::Missing => return (None, discarded),
            }
        }
    };
    assert_eq!(look(0), (Some(0), vec![]));
    assert_eq!(look(3), (Some(3), vec![0, 1, 2]));
    assert_eq!(look(6), (None, vec![0, 1, 2, 3, 4, 5]));
    let names: Vec<String> = (0..AUDIO_EXTENSION_COUNT)
        .map(|index| NcmApi::song_candidate(9, MusicQuality::Sky, index))
        .collect();
    assert_eq!(
        names,
        vec!["9_sky.mp3", "9_sky.flac", "9_sky.wav", "9_sky.ogg", "9_sky.m4a", "9_sky.aac"]
    );
    for name in &names {
        assert!(!names.contains(&downloading_name(name)));
    }
    assert_eq!(downloading_name(&names[0]), "9_sky.mp3.downloading");
}

#[test]
fn the_file_of_a_downloaded_song() {
    assert_eq!(
        NcmApi::song_file_name(12, MusicQuality::Standard, b"fLaC"),
        Ok("12_standard.flac".to_string())
    );
    assert_eq!(
        NcmApi::song_file_name(12, MusicQuality::Standard, b"?"),
        Err(ApiError::UnsupportedAudio)
    );
    assert_eq!(NcmApi::download_song_to_file(1, &url(1, Some("http://s"))), Ok("http://s".to_string()));
    assert_eq!(
        NcmApi::download_song_to_file(1, &url(1, None)),
        Err("song url is empty for id 1".to_string())
    );
}

#[test]
fn a_batch_of_songs_is_settled() {
    let mut urls = HashMap::new();
    urls.insert(1, url(1, Some("one")));
    urls.insert(2, url(2, Some("two")));
    let mut batch = SongBatch::new(urls);
    batch.searched(1, Some("1.mp3".to_string()));
    batch.searched(2, None);
    batch.searched(2, None);
    batch.searched(3, None);
    let pending = batch.take_pending();
    assert_eq!(pending.len(), 1);
    assert_eq!(pending[0].0, 2);
    assert_eq!(pending[0].1.url, Some("two".to_string()));
    assert!(batch.take_pending().is_empty());
    batch.download_finished(2, Ok("2.mp3".to_string()));
    let files = batch.into_local_files();
    assert_eq!(files.len(), 3);
    assert_eq!(files[&1], Ok("1.mp3".to_string()));
    assert_eq!(files[&2], Ok("2.mp3".to_string()));
    assert_eq!(files[&3], Err("track url not found for id 3".to_string()));
}

#[test]
fn songs_have_files_of_their_own() {
    let qualities = [MusicQuality::Standard, MusicQuality::HiRes];
    let mut names = Vec::new();
    for id in [1u64, 11, 111] {
        for quality in qualities {
            for index in 0..AUDIO_EXTENSION_COUNT {
                names.push(NcmApi::song_candidate(id, quality, index));
            }
        }
    }
    for (i, name) in names.iter().enumerate() {
        assert!(!names[i + 1..].contains(name));
    }
}

#[test]
fn a_download_succeeds_after_two_failures() {
    let download = |attempts: [Attempt; 3]| {
        let mut number = 0;
        let mut waited = 0;
        loop {
            match NcmApi::download_bytes(number, attempts[number]) {
                DownloadStep::Retry(millis) => {
                    waited += millis;
                    number += 1;
                }
                DownloadStep::Done => return (Ok(number), waited),
                DownloadStep::Fail(error) => return (Err(error), waited),
            }
        }
    };
    let busy = Attempt::BadStatus(429);
    assert_eq!(download([Attempt::SendFailed, busy, Attempt::Body(3)]), (Ok(2), 450));
    assert_eq!(download([Attempt::Body(1), busy, busy]), (Ok(0), 0));
    assert_eq!(download([busy, busy, busy]), (Err(DownloadError::BadStatus(429)), 450));
    assert_eq!(
        download([busy, Attempt::BodyFailed, Attempt::Body(3)]),
        (Err(DownloadError::BodyFailed), 150)
    );
}
