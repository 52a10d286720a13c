use smt::json::{as_bool, as_i64, as_list, as_text, as_u64, Json};
use smt::model::{Account, ModelError, PlaylistDetail};

fn text(text: &str) -> Json {
    Json::Text(text.to_string())
}

fn object(fields: Vec<(&str, Json)>) -> Json {
    Json::Object(fields.into_iter().map(|(name, value)| (name.to_string(), value)).collect())
}

fn profile_fields() -> Vec<(&'static str, Json)> {
    vec![
        ("userId", Json::Unsigned(7)),
        ("nickname", text("nick")),
        ("avatarImgId", Json::Unsigned(11)),
        ("avatarUrl", text("http://a")),
        ("backgroundImgId", Json::Unsigned(12)),
        ("backgroundUrl", text("http://b")),
    ]
}

fn creator_fields() -> Vec<(&'static str, Json)> {
    let mut fields = profile_fields();
    fields.push(("description", text("d")));
    fields.push(("detailDescription", text("dd")));
    fields
}

fn without(fields: Vec<(&'static str, Json)>, name: &str) -> Json {
    object(fields.into_iter().filter(|field| field.0 != name).collect())
}

fn account(body: &Json) -> Result<Account, ModelError> {
    Account::try_from(body)
}

fn parsed() -> PlaylistDetail {
    PlaylistDetail {
        id: 5,
        name: "list".to_string(),
        cover_img_id: 6,
        cover_img_url: "http://c".to_string(),
        description: "text".to_string(),
        creator: Account::default(),
        create_time: 1,
        play_count: 2,
        subscribed: true,
        track_count: 3,
        track_ids: vec![],
    }
}

fn track(id: u64) -> Json {
    object(vec![("id", Json::Unsigned(id))])
}

#[test]
fn members_of_values() {
    let body = object(vec![
        ("a", Json::Unsigned(1)),
        ("a", Json::Unsigned(2)),
        ("b", object(vec![("c", Json::Bool(true))])),
        ("l", Json::List(vec![Json::Null])),
    ]);
    assert_eq!(as_u64(body.get("a")), Some(1));
    assert!(body.get("z").is_none());
    assert!(Json::Null.get("a").is_none());
    assert_eq!(as_bool(body.get_in("b", "c")), Some(true));
    assert!(body.get_in("a", "c").is_none());
    assert_eq!(as_list(body.get("l")).map(|list| list.len()), Some(1));
    assert!(as_list(body.get("a")).is_none());
}

#[test]
fn numbers_of_values() {
    assert_eq!(as_u64(Some(&Json::Negative(-1))), None);
    assert_eq!(as_i64(Some(&Json::Negative(-1))), Some(-1));
    assert_eq!(as_i64(Some(&Json::Unsigned(u64::MAX))), None);
    assert_eq!(as_i64(Some(&Json::Unsigned(i64::MAX as u64))), Some(i64::MAX));
    assert_eq!(as_u64(Some(&Json::Fraction)), None);
    assert_eq!(as_u64(None), None);
    assert_eq!(as_text(Some(&text("x"))), Some("x".to_string()));
    assert_eq!(as_text(Some(&Json::Null)), None);
    assert_eq!(as_bool(Some(&Json::Unsigned(1))), None);
}

#[test]
fn an_account_is_read() {
    let mut fields = profile_fields();
    fields.push(("description", text("about")));
    fields.push(("remarkName", text("friend")));
    fields.push(("followed", Json::Bool(true)));
    fields.push(("vipType", Json::Unsigned(11)));
    let account = account(&object(vec![("profile", object(fields))])).unwrap();
    assert_eq!(account.id, 7);
    assert_eq!(account.nickname, "nick");
    assert_eq!(account.avatar_img_id, 11);
    assert_eq!(account.avatar_url, "http://a");
    assert_eq!(account.background_img_id, 12);
    assert_eq!(account.background_url, "http://b");
    assert_eq!(account.description, "about");
    assert_eq!(account.detail_description, "");
    assert_eq!(account.remark_name, Some("friend".to_string()));
    assert!(account.followed);
    assert_eq!(account.vip_type, 11);
    let copy = account.clone();
    assert_eq!(copy.nickname, "nick");
    assert_eq!(copy.remark_name, account.remark_name);
}

#[test]
fn the_account_part_stands_in_for_the_identifier() {
    let body = object(vec![
        ("profile", without(profile_fields(), "userId")),
        ("account", object(vec![("id", Json::Unsigned(99))])),
    ]);
    assert_eq!(account(&body).unwrap().id, 99);
    let body = object(vec![
        ("profile", without(profile_fields(), "userId")),
        ("id", Json::Unsigned(98)),
    ]);
    assert_eq!(account(&body).unwrap().id, 98);
}

#[test]
fn large_membership_levels_lose_their_upper_bits() {
    let mut fields = profile_fields();
    fields.push(("vipType", Json::Unsigned(0x1_0000_0002)));
    let body = object(vec![("profile", object(fields))]);
    assert_eq!(account(&body).unwrap().vip_type, 2);
}

#[test]
fn what_an_account_lacks() {
    let wanted = [
        ("userId", ModelError::AccountNotFound, "account not found"),
        ("nickname", ModelError::NicknameNotFound, "nickname not found"),
        ("avatarImgId", ModelError::AvatarImgIdNotFound, "avatarImgId not found"),
        ("avatarUrl", ModelError::AvatarUrlNotFound, "avatarUrl not found"),
        ("backgroundImgId", ModelError::BackgroundImgIdNotFound, "backgroundImgId not found"),
        ("backgroundUrl", ModelError::BackgroundUrlNotFound, "backgroundUrl not found"),
    ];
    for (name, error, message) in wanted {
        let body = object(vec![("profile", without(profile_fields(), name))]);
        assert_eq!(account(&body).unwrap_err(), error);
        assert_eq!(error.message(), message);
    }
    assert_eq!(account(&Json::Null).unwrap_err(), ModelError::ProfileNotFound);
    assert_eq!(ModelError::ProfileNotFound.message(), "profile not found");
}

#[test]
fn a_playlist_is_completed() {
    let body = object(vec![
        ("trackIds", Json::List(vec![track(3), track(1)])),
        ("creator", object(creator_fields())),
    ]);
    let playlist = PlaylistDetail::try_from(&body, Some(parsed())).unwrap();
    assert_eq!(playlist.track_ids, vec![3, 1]);
    assert_eq!(playlist.creator.nickname, "nick");
    assert_eq!(playlist.creator.detail_description, "dd");
    assert_eq!(playlist.name, "list");
    assert_eq!(playlist.play_count, 2);
    assert_eq!(playlist.clone().track_ids, vec![3, 1]);
}

#[test]
fn what_a_playlist_lacks() {
    let wanted = [
        ("userId", ModelError::CreatorUserIdNotFound, "creator userId not found"),
        ("nickname", ModelError::CreatorNicknameNotFound, "nickname nickname not found"),
        ("avatarUrl", ModelError::CreatorAvatarUrlNotFound, "creator avatarUrl not found"),
        ("avatarImgId", ModelError::CreatorAvatarImgIdNotFound, "creator avatarImgId not found"),
        (
            "backgroundImgId",
            ModelError::CreatorBackgroundImgIdNotFound,
            "creator backgroundImgId not found",
        ),
        (
            "backgroundUrl",
            ModelError::CreatorBackgroundUrlNotFound,
            "creator backgroundUrl not found",
        ),
        ("description", ModelError::CreatorDescriptionNotFound, "creator description not found"),
        (
            "detailDescription",
            ModelError::CreatorDetailDescriptionNotFound,
            "creator detailDescription not found",
        ),
    ];
    for (name, error, message) in wanted {
        let body = object(vec![
            ("trackIds", Json::List(vec![Json::Null])),
            ("creator", without(creator_fields(), name)),
        ]);
        assert_eq!(PlaylistDetail::try_from(&body, None).unwrap_err(), error);
        assert_eq!(error.message(), message);
    }
    let tracks = |list: Json| object(vec![("trackIds", list), ("creator", object(creator_fields()))]);
    let error = PlaylistDetail::try_from(&tracks(Json::Null), None).unwrap_err();
    assert_eq!(error, ModelError::TrackIdsNotFound);
    assert_eq!(error.message(), "trackIds not found");
    let error = PlaylistDetail::try_from(&tracks(Json::List(vec![Json::Null])), None).unwrap_err();
    assert_eq!(error, ModelError::PlaylistNotParsed);
    assert_eq!(error.message(), "Failed to parse playlist details");
    let list = Json::List(vec![track(1), Json::Null]);
    let error = PlaylistDetail::try_from(&tracks(list), Some(parsed())).unwrap_err();
    assert_eq!(error, ModelError::TrackIdNotFound);
    assert_eq!(error.message(), "trackId id not found");
}
