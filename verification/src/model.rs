//! What the application knows of accounts, playlists and songs, and how it reads that from the
//! answers of the music service.
use vstd::prelude::*;

use crate::json::{
    as_bool, as_i64, as_list, as_text, as_u64, bool_of, deref_json, i64_of, list_of, member_of,
    optional_text, text_of, u64_of, Json,
};
use crate::text::texts;

verus! {

/// The code that a user scans to log in.
#[derive(Debug, Clone)]
pub struct QrCode {
    pub unikey: String,
    pub url: String,
}

#[derive(Debug)]
pub struct Account {
    pub id: u64,
    pub nickname: String,
    pub avatar_img_id: u64,
    pub avatar_url: String,
    pub background_img_id: u64,
    pub background_url: String,
    pub description: String,
    pub detail_description: String,
    pub remark_name: Option<String>,
    pub followed: bool,
    pub vip_type: i32,
}

#[derive(Debug)]
pub struct PlaylistDetail {
    pub id: u64,
    pub name: String,
    pub cover_img_id: u64,
    pub cover_img_url: String,
    pub description: String,
    pub creator: Account,
    pub create_time: u64,
    pub play_count: u64,
    pub subscribed: bool,
    pub track_count: i32,
    pub track_ids: Vec<u64>,
}

#[derive(Debug)]
pub struct TrackDetail {
    pub album: AlbumInTrack,
    pub artist: Vec<ArtistInTrack>,
    pub id: u64,
    pub name: String,
    pub translation: Vec<String>,
    /// In milliseconds.
    pub duration: u32,
    pub fee: i32,
}

#[derive(Debug)]
pub struct AlbumInTrack {
    pub id: u64,
    pub name: String,
    pub pic: u64,
    pub pic_url: String,
    pub translation: Vec<String>,
}

#[derive(Debug)]
pub struct ArtistInTrack {
    pub id: u64,
    pub name: String,
    pub translation: Vec<String>,
}

#[derive(Debug, Clone)]
pub struct TrackUrl {
    pub bitrate: Option<i32>,
    pub url: Option<String>,
    pub id: u64,
}

#[derive(Debug, Clone)]
pub struct PlaylistShortInfo {
    pub id: u64,
    pub name: String,
    pub cover_img_url: String,
    pub cover_img_id: u64,
    pub creator_id: u64,
    pub subscribed: bool,
}

/// The playlists of a user: their own, and those of others that they follow.
#[derive(Debug, Clone)]
pub struct UserPlaylists {
    pub created: Vec<PlaylistShortInfo>,
    pub subscribed: Vec<PlaylistShortInfo>,
}

/// Why an answer of the music service could not be read.
#[derive(Clone, Copy, Debug, PartialEq, Eq, Structural)]
pub enum ModelError {
    ProfileNotFound,
    AccountNotFound,
    NicknameNotFound,
    AvatarImgIdNotFound,
    AvatarUrlNotFound,
    BackgroundImgIdNotFound,
    BackgroundUrlNotFound,
    TrackIdsNotFound,
    TrackIdNotFound,
    CreatorUserIdNotFound,
    CreatorNicknameNotFound,
    CreatorAvatarUrlNotFound,
    CreatorAvatarImgIdNotFound,
    CreatorBackgroundImgIdNotFound,
    CreatorBackgroundUrlNotFound,
    CreatorDescriptionNotFound,
    CreatorDetailDescriptionNotFound,
    PlaylistNotParsed,
}

impl ModelError {
    /// The text of an error.
    pub open spec fn text(self) -> Seq<char> {
        match self {
            ModelError::ProfileNotFound => "profile not found"@,
            ModelError::AccountNotFound => "account not found"@,
            ModelError::NicknameNotFound => "nickname not found"@,
            ModelError::AvatarImgIdNotFound => "avatarImgId not found"@,
            ModelError::AvatarUrlNotFound => "avatarUrl not found"@,
            ModelError::BackgroundImgIdNotFound => "backgroundImgId not found"@,
            ModelError::BackgroundUrlNotFound => "backgroundUrl not found"@,
            ModelError::TrackIdsNotFound => "trackIds not found"@,
            ModelError::TrackIdNotFound => "trackId id not found"@,
            ModelError::CreatorUserIdNotFound => "creator userId not found"@,
            ModelError::CreatorNicknameNotFound => "nickname nickname not found"@,
            ModelError::CreatorAvatarUrlNotFound => "creator avatarUrl not found"@,
            ModelError::CreatorAvatarImgIdNotFound => "creator avatarImgId not found"@,
            ModelError::CreatorBackgroundImgIdNotFound => "creator backgroundImgId not found"@,
            ModelError::CreatorBackgroundUrlNotFound => "creator backgroundUrl not found"@,
            ModelError::CreatorDescriptionNotFound => "creator description not found"@,
            ModelError::CreatorDetailDescriptionNotFound =>
                "creator detailDescription not found"@,
            ModelError::PlaylistNotParsed => "Failed to parse playlist details"@,
        }
    }

    /// Says what is wrong.
    pub fn message(&self) -> (message: &'static str)
        ensures
            message@ == self.text(),
    {
        match self {
            ModelError::ProfileNotFound => "profile not found",
            ModelError::AccountNotFound => "account not found",
            ModelError::NicknameNotFound => "nickname not found",
            ModelError::AvatarImgIdNotFound => "avatarImgId not found",
            ModelError::AvatarUrlNotFound => "avatarUrl not found",
            ModelError::BackgroundImgIdNotFound => "backgroundImgId not found",
            ModelError::BackgroundUrlNotFound => "backgroundUrl not found",
            ModelError::TrackIdsNotFound => "trackIds not found",
            ModelError::TrackIdNotFound => "trackId id not found",
            ModelError::CreatorUserIdNotFound => "creator userId not found",
            ModelError::CreatorNicknameNotFound => "nickname nickname not found",
            ModelError::CreatorAvatarUrlNotFound => "creator avatarUrl not found",
            ModelError::CreatorAvatarImgIdNotFound => "creator avatarImgId not found",
            ModelError::CreatorBackgroundImgIdNotFound => "creator backgroundImgId not found",
            ModelError::CreatorBackgroundUrlNotFound => "creator backgroundUrl not found",
            ModelError::CreatorDescriptionNotFound => "creator description not found",
            ModelError::CreatorDetailDescriptionNotFound => "creator detailDescription not found",
            ModelError::PlaylistNotParsed => "Failed to parse playlist details",
        }
    }
}

/// An account as contracts speak of it.
#[verifier::ext_equal]
pub struct AccountView {
    pub id: u64,
    pub nickname: Seq<char>,
    pub avatar_img_id: u64,
    pub avatar_url: Seq<char>,
    pub background_img_id: u64,
    pub background_url: Seq<char>,
    pub description: Seq<char>,
    pub detail_description: Seq<char>,
    pub remark_name: Option<Seq<char>>,
    pub followed: bool,
    pub vip_type: i32,
}

impl View for Account {
    type V = AccountView;

    open spec fn view(&self) -> AccountView {
        AccountView {
            id: self.id,
            nickname: self.nickname@,
            avatar_img_id: self.avatar_img_id,
            avatar_url: self.avatar_url@,
            background_img_id: self.background_img_id,
            background_url: self.background_url@,
            description: self.description@,
            detail_description: self.detail_description@,
            remark_name: optional_text(self.remark_name),
            followed: self.followed,
            vip_type: self.vip_type,
        }
    }
}

/// An artist as contracts speak of them.
#[verifier::ext_equal]
pub struct ArtistView {
    pub id: u64,
    pub name: Seq<char>,
    pub translation: Seq<Seq<char>>,
}

impl View for ArtistInTrack {
    type V = ArtistView;

    open spec fn view(&self) -> ArtistView {
        ArtistView { id: self.id, name: self.name@, translation: texts(self.translation@) }
    }
}

/// An album as contracts speak of it.
#[verifier::ext_equal]
pub struct AlbumView {
    pub id: u64,
    pub name: Seq<char>,
    pub pic: u64,
    pub pic_url: Seq<char>,
    pub translation: Seq<Seq<char>>,
}

impl View for AlbumInTrack {
    type V = AlbumView;

    open spec fn view(&self) -> AlbumView {
        AlbumView {
            id: self.id,
            name: self.name@,
            pic: self.pic,
            pic_url: self.pic_url@,
            translation: texts(self.translation@),
        }
    }
}

/// A song as contracts speak of it.
#[verifier::ext_equal]
pub struct TrackView {
    pub album: AlbumView,
    pub artist: Seq<ArtistView>,
    pub id: u64,
    pub name: Seq<char>,
    pub translation: Seq<Seq<char>>,
    pub duration: u32,
    pub fee: i32,
}

/// The artists of a song.
pub open spec fn artist_views(artists: Seq<ArtistInTrack>) -> Seq<ArtistView> {
    artists.map_values(|artist: ArtistInTrack| artist@)
}

/// Songs as contracts speak of them.
pub open spec fn track_views(tracks: Seq<TrackDetail>) -> Seq<TrackView> {
    tracks.map_values(|track: TrackDetail| track@)
}

impl View for TrackDetail {
    type V = TrackView;

    open spec fn view(&self) -> TrackView {
        TrackView {
            album: self.album@,
            artist: artist_views(self.artist@),
            id: self.id,
            name: self.name@,
            translation: texts(self.translation@),
            duration: self.duration,
            fee: self.fee,
        }
    }
}

/// A playlist as contracts speak of it.
#[verifier::ext_equal]
pub struct PlaylistView {
    pub id: u64,
    pub name: Seq<char>,
    pub cover_img_id: u64,
    pub cover_img_url: Seq<char>,
    pub description: Seq<char>,
    pub creator: AccountView,
    pub create_time: u64,
    pub play_count: u64,
    pub subscribed: bool,
    pub track_count: i32,
    pub track_ids: Seq<u64>,
}

impl View for PlaylistDetail {
    type V = PlaylistView;

    open spec fn view(&self) -> PlaylistView {
        PlaylistView {
            id: self.id,
            name: self.name@,
            cover_img_id: self.cover_img_id,
            cover_img_url: self.cover_img_url@,
            description: self.description@,
            creator: self.creator@,
            create_time: self.create_time,
            play_count: self.play_count,
            subscribed: self.subscribed,
            track_count: self.track_count,
            track_ids: self.track_ids@,
        }
    }
}

fn clone_texts(list: &Vec<String>) -> (copy: Vec<String>)
    ensures
        texts(copy@) == texts(list@),
{
    let copy = list.clone();
    assert(texts(copy@) =~= texts(list@));
    copy
}

impl Clone for Account {
    fn clone(&self) -> (copy: Self)
        ensures
            copy@ == self@,
    {
        Account {
            id: self.id,
            nickname: self.nickname.clone(),
            avatar_img_id: self.avatar_img_id,
            avatar_url: self.avatar_url.clone(),
            background_img_id: self.background_img_id,
            background_url: self.background_url.clone(),
            description: self.description.clone(),
            detail_description: self.detail_description.clone(),
            remark_name: match &self.remark_name {
                Some(name) => Some(name.clone()),
                None => None,
            },
            followed: self.followed,
            vip_type: self.vip_type,
        }
    }
}

impl Default for Account {
    fn default() -> (account: Self)
        ensures
            account@ == (AccountView {
                id: 0,
                nickname: Seq::empty(),
                avatar_img_id: 0,
                avatar_url: Seq::empty(),
                background_img_id: 0,
                background_url: Seq::empty(),
                description: Seq::empty(),
                detail_description: Seq::empty(),
                remark_name: None,
                followed: false,
                vip_type: 0,
            }),
    {
        Account {
            id: 0,
            nickname: String::new(),
            avatar_img_id: 0,
            avatar_url: String::new(),
            background_img_id: 0,
            background_url: String::new(),
            description: String::new(),
            detail_description: String::new(),
            remark_name: None,
            followed: false,
            vip_type: 0,
        }
    }
}

impl Clone for ArtistInTrack {
    fn clone(&self) -> (copy: Self)
        ensures
            copy@ == self@,
    {
        ArtistInTrack {
            id: self.id,
            name: self.name.clone(),
            translation: clone_texts(&self.translation),
        }
    }
}

impl Clone for AlbumInTrack {
    fn clone(&self) -> (copy: Self)
        ensures
            copy@ == self@,
    {
        AlbumInTrack {
            id: self.id,
            name: self.name.clone(),
            pic: self.pic,
            pic_url: self.pic_url.clone(),
            translation: clone_texts(&self.translation),
        }
    }
}

impl Clone for TrackDetail {
    fn clone(&self) -> (copy: Self)
        ensures
            copy@ == self@,
    {
        let artist = self.artist.clone();
        assert(artist_views(artist@) =~= artist_views(self.artist@));
        TrackDetail {
            album: self.album.clone(),
            artist,
            id: self.id,
            name: self.name.clone(),
            translation: clone_texts(&self.translation),
            duration: self.duration,
            fee: self.fee,
        }
    }
}

impl Clone for PlaylistDetail {
    fn clone(&self) -> (copy: Self)
        ensures
            copy@ == self@,
    {
        let track_ids = self.track_ids.clone();
        assert(track_ids@ =~= self.track_ids@);
        PlaylistDetail {
            id: self.id,
            name: self.name.clone(),
            cover_img_id: self.cover_img_id,
            cover_img_url: self.cover_img_url.clone(),
            description: self.description.clone(),
            creator: self.creator.clone(),
            create_time: self.create_time,
            play_count: self.play_count,
            subscribed: self.subscribed,
            track_count: self.track_count,
            track_ids,
        }
    }
}

/// A text that may be absent, or the empty one.
pub open spec fn text_or_empty(text: Option<Seq<char>>) -> Seq<char> {
    match text {
        Some(text) => text,
        None => Seq::empty(),
    }
}

/// A membership level; a number that does not fit in 32 bits loses its upper bits, and none is 0.
pub open spec fn vip_type_of(number: Option<i64>) -> i32 {
    match number {
        Some(number) => number as i32,
        None => 0,
    }
}

pub open spec fn or_false(truth: Option<bool>) -> bool {
    truth == Some(true)
}

/// The account that an answer holds. The identifier is that of the profile, or else of the
/// account part. The descriptions and what follows them may be missing; the first of the other
/// fields that is missing is the error.
pub open spec fn account_of(body: Json) -> Result<AccountView, ModelError> {
    match body.member("profile"@) {
        None => Err(ModelError::ProfileNotFound),
        Some(profile) => {
            let account = match body.member("account"@) {
                Some(account) => account,
                None => body,
            };
            let id = match u64_of(profile.member("userId"@)) {
                Some(id) => Some(id),
                None => u64_of(account.member("id"@)),
            };
            let nickname = text_of(profile.member("nickname"@));
            let avatar_img_id = u64_of(profile.member("avatarImgId"@));
            let avatar_url = text_of(profile.member("avatarUrl"@));
            let background_img_id = u64_of(profile.member("backgroundImgId"@));
            let background_url = text_of(profile.member("backgroundUrl"@));
            if id is None {
                Err(ModelError::AccountNotFound)
            } else if nickname is None {
                Err(ModelError::NicknameNotFound)
            } else if avatar_img_id is None {
                Err(ModelError::AvatarImgIdNotFound)
            } else if avatar_url is None {
                Err(ModelError::AvatarUrlNotFound)
            } else if background_img_id is None {
                Err(ModelError::BackgroundImgIdNotFound)
            } else if background_url is None {
                Err(ModelError::BackgroundUrlNotFound)
            } else {
                Ok(
                    AccountView {
                        id: id->0,
                        nickname: nickname->0,
                        avatar_img_id: avatar_img_id->0,
                        avatar_url: avatar_url->0,
                        background_img_id: background_img_id->0,
                        background_url: background_url->0,
                        description: text_or_empty(text_of(profile.member("description"@))),
                        detail_description: text_or_empty(
                            text_of(profile.member("detailDescription"@)),
                        ),
                        remark_name: text_of(profile.member("remarkName"@)),
                        followed: or_false(bool_of(profile.member("followed"@))),
                        vip_type: vip_type_of(i64_of(profile.member("vipType"@))),
                    },
                )
            }
        },
    }
}

/// The creator of a playlist. The remark name and what follows it may be missing; the first of
/// the other fields that is missing is the error.
pub open spec fn creator_of(body: Json) -> Result<AccountView, ModelError> {
    let creator = body.member("creator"@);
    let id = u64_of(member_of(creator, "userId"@));
    let nickname = text_of(member_of(creator, "nickname"@));
    let avatar_url = text_of(member_of(creator, "avatarUrl"@));
    let avatar_img_id = u64_of(member_of(creator, "avatarImgId"@));
    let background_img_id = u64_of(member_of(creator, "backgroundImgId"@));
    let background_url = text_of(member_of(creator, "backgroundUrl"@));
    let description = text_of(member_of(creator, "description"@));
    let detail_description = text_of(member_of(creator, "detailDescription"@));
    if id is None {
        Err(ModelError::CreatorUserIdNotFound)
    } else if nickname is None {
        Err(ModelError::CreatorNicknameNotFound)
    } else if avatar_url is None {
        Err(ModelError::CreatorAvatarUrlNotFound)
    } else if avatar_img_id is None {
        Err(ModelError::CreatorAvatarImgIdNotFound)
    } else if background_img_id is None {
        Err(ModelError::CreatorBackgroundImgIdNotFound)
    } else if background_url is None {
        Err(ModelError::CreatorBackgroundUrlNotFound)
    } else if description is None {
        Err(ModelError::CreatorDescriptionNotFound)
    } else if detail_description is None {
        Err(ModelError::CreatorDetailDescriptionNotFound)
    } else {
        Ok(
            AccountView {
                id: id->0,
                nickname: nickname->0,
                avatar_img_id: avatar_img_id->0,
                avatar_url: avatar_url->0,
                background_img_id: background_img_id->0,
                background_url: background_url->0,
                description: description->0,
                detail_description: detail_description->0,
                remark_name: text_of(member_of(creator, "remarkName"@)),
                followed: or_false(bool_of(member_of(creator, "followed"@))),
                vip_type: vip_type_of(i64_of(member_of(creator, "vipType"@))),
            },
        )
    }
}

/// Whether `ids` are the identifiers of the listed tracks, one for each.
pub open spec fn are_track_ids(tracks: Seq<Json>, ids: Seq<u64>) -> bool {
    &&& ids.len() == tracks.len()
    &&& forall|i: int|
        0 <= i < tracks.len() ==> u64_of(#[trigger] tracks[i].member("id"@)) == Some(ids[i])
}

/// Whether every listed track has an identifier.
pub open spec fn have_ids(tracks: Seq<Json>) -> bool {
    forall|i: int|
        0 <= i < tracks.len() ==> u64_of(#[trigger] tracks[i].member("id"@)) is Some
}

fn text_or_empty_of(value: Option<&Json>) -> (text: String)
    ensures
        text@ == text_or_empty(text_of(deref_json(value))),
{
    match as_text(value) {
        Some(text) => text,
        None => String::new(),
    }
}

fn vip_type(value: Option<&Json>) -> (vip_type: i32)
    ensures
        vip_type == vip_type_of(i64_of(deref_json(value))),
{
    match as_i64(value) {
        Some(number) => number as i32,
        None => 0,
    }
}

fn is_true(value: Option<&Json>) -> (truth: bool)
    ensures
        truth == or_false(bool_of(deref_json(value))),
{
    match as_bool(value) {
        Some(truth) => truth,
        None => false,
    }
}

impl Account {
    /// Reads an account from an answer.
    pub fn try_from(body: &Json) -> (account: Result<Account, ModelError>)
        ensures
            match account {
                Ok(account) => {
                    let part = body.member("profile"@);
                    &&& account_of(*body) == Ok::<AccountView, ModelError>(account@)
                    &&& part is Some
                    &&& (u64_of(member_of(part, "userId"@)) matches Some(id) ==> account.id == id)
                    &&& u64_of(member_of(part, "userId"@)) is None
                        && body.member("account"@) is Some
                            ==> u64_of(member_of(body.member("account"@), "id"@))
                                == Some(account.id)
                    &&& u64_of(member_of(part, "userId"@)) is None
                        && body.member("account"@) is None ==> u64_of(body.member("id"@))
                            == Some(account.id)
                    &&& (text_of(member_of(part, "description"@)) matches Some(text)
                        ==> account.description@ == text)
                    &&& text_of(member_of(part, "description"@)) is None
                        ==> account.description@.len() == 0
                    &&& (text_of(member_of(part, "detailDescription"@)) matches Some(text)
                        ==> account.detail_description@ == text)
                    &&& text_of(member_of(part, "detailDescription"@)) is None
                        ==> account.detail_description@.len() == 0
                    &&& text_of(member_of(part, "nickname"@)) == Some(account.nickname@)
                    &&& u64_of(member_of(part, "avatarImgId"@)) == Some(account.avatar_img_id)
                    &&& text_of(member_of(part, "avatarUrl"@)) == Some(account.avatar_url@)
                    &&& u64_of(member_of(part, "backgroundImgId"@))
                        == Some(account.background_img_id)
                    &&& text_of(member_of(part, "backgroundUrl"@)) == Some(account.background_url@)
                    &&& optional_text(account.remark_name)
                        == text_of(member_of(part, "remarkName"@))
                    &&& account.followed <==> bool_of(member_of(part, "followed"@)) == Some(true)
                    &&& i64_of(member_of(part, "vipType"@)) is None ==> account.vip_type == 0
                    &&& (i64_of(member_of(part, "vipType"@)) matches Some(number)
                        ==> i32::MIN <= number <= i32::MAX ==> account.vip_type == number)
                },
                Err(error) => account_of(*body) == Err::<AccountView, ModelError>(error),
            },
    {
        let profile = match body.get("profile") {
            Some(profile) => profile,
            None => return Err(ModelError::ProfileNotFound),
        };
        let account = match body.get("account") {
            Some(account) => account,
            None => body,
        };
        let id = match as_u64(profile.get("userId")) {
            Some(id) => id,
            None => match as_u64(account.get("id")) {
                Some(id) => id,
                None => return Err(ModelError::AccountNotFound),
            },
        };
        let nickname = match as_text(profile.get("nickname")) {
            Some(text) => text,
            None => return Err(ModelError::NicknameNotFound),
        };
        let avatar_img_id = match as_u64(profile.get("avatarImgId")) {
            Some(id) => id,
            None => return Err(ModelError::AvatarImgIdNotFound),
        };
        let avatar_url = match as_text(profile.get("avatarUrl")) {
            Some(text) => text,
            None => return Err(ModelError::AvatarUrlNotFound),
        };
        let background_img_id = match as_u64(profile.get("backgroundImgId")) {
            Some(id) => id,
            None => return Err(ModelError::BackgroundImgIdNotFound),
        };
        let background_url = match as_text(profile.get("backgroundUrl")) {
            Some(text) => text,
            None => return Err(ModelError::BackgroundUrlNotFound),
        };
        Ok(
            Account {
                id,
                nickname,
                avatar_img_id,
                avatar_url,
                background_img_id,
                background_url,
                description: text_or_empty_of(profile.get("description")),
                detail_description: text_or_empty_of(profile.get("detailDescription")),
                remark_name: as_text(profile.get("remarkName")),
                followed: is_true(profile.get("followed")),
                vip_type: vip_type(profile.get("vipType")),
            },
        )
    }

    /// Reads the creator of a playlist from an answer.
    pub fn creator_from(body: &Json) -> (creator: Result<Account, ModelError>)
        ensures
            match creator {
                Ok(creator) => {
                    let part = body.member("creator"@);
                    &&& creator_of(*body) == Ok::<AccountView, ModelError>(creator@)
                    &&& u64_of(member_of(part, "userId"@)) == Some(creator.id)
                    &&& text_of(member_of(part, "nickname"@)) == Some(creator.nickname@)
                    &&& u64_of(member_of(part, "avatarImgId"@)) == Some(creator.avatar_img_id)
                    &&& text_of(member_of(part, "avatarUrl"@)) == Some(creator.avatar_url@)
                    &&& u64_of(member_of(part, "backgroundImgId"@))
                        == Some(creator.background_img_id)
                    &&& text_of(member_of(part, "backgroundUrl"@)) == Some(creator.background_url@)
                    &&& text_of(member_of(part, "description"@)) == Some(creator.description@)
                    &&& text_of(member_of(part, "detailDescription"@))
                        == Some(creator.detail_description@)
                    &&& optional_text(creator.remark_name)
                        == text_of(member_of(part, "remarkName"@))
                    &&& creator.followed <==> bool_of(member_of(part, "followed"@)) == Some(true)
                    &&& i64_of(member_of(part, "vipType"@)) is None ==> creator.vip_type == 0
                    &&& (i64_of(member_of(part, "vipType"@)) matches Some(number)
                        ==> i32::MIN <= number <= i32::MAX ==> creator.vip_type == number)
                },
                Err(error) => creator_of(*body) == Err::<AccountView, ModelError>(error),
            },
    {
        let id = match as_u64(body.get_in("creator", "userId")) {
            Some(id) => id,
            None => return Err(ModelError::CreatorUserIdNotFound),
        };
        let nickname = match as_text(body.get_in("creator", "nickname")) {
            Some(text) => text,
            None => return Err(ModelError::CreatorNicknameNotFound),
        };
        let avatar_url = match as_text(body.get_in("creator", "avatarUrl")) {
            Some(text) => text,
            None => return Err(ModelError::CreatorAvatarUrlNotFound),
        };
        let avatar_img_id = match as_u64(body.get_in("creator", "avatarImgId")) {
            Some(id) => id,
            None => return Err(ModelError::CreatorAvatarImgIdNotFound),
        };
        let background_img_id = match as_u64(body.get_in("creator", "backgroundImgId")) {
            Some(id) => id,
            None => return Err(ModelError::CreatorBackgroundImgIdNotFound),
        };
        let background_url = match as_text(body.get_in("creator", "backgroundUrl")) {
            Some(text) => text,
            None => return Err(ModelError::CreatorBackgroundUrlNotFound),
        };
        let description = match as_text(body.get_in("creator", "description")) {
            Some(text) => text,
            None => return Err(ModelError::CreatorDescriptionNotFound),
        };
        let detail_description = match as_text(body.get_in("creator", "detailDescription")) {
            Some(text) => text,
            None => return Err(ModelError::CreatorDetailDescriptionNotFound),
        };
        Ok(
            Account {
                id,
                nickname,
                avatar_img_id,
                avatar_url,
                background_img_id,
                background_url,
                description,
                detail_description,
                remark_name: as_text(body.get_in("creator", "remarkName")),
                followed: is_true(body.get_in("creator", "followed")),
                vip_type: vip_type(body.get_in("creator", "vipType")),
            },
        )
    }
}

impl PlaylistDetail {
    /// Completes a playlist that was read from an answer with the creator and the identifiers
    /// of the tracks, which the answer holds in another form. `parsed` is the rest of the
    /// playlist, if it could be read.
    pub fn try_from(body: &Json, parsed: Option<PlaylistDetail>) -> (playlist: Result<
        PlaylistDetail,
        ModelError,
    >)
        ensures
            match playlist {
                Ok(playlist) => {
                    let part = body.member("creator"@);
                    &&& creator_of(*body) == Ok::<AccountView, ModelError>(playlist.creator@)
                    &&& u64_of(member_of(part, "userId"@)) == Some(playlist.creator.id)
                    &&& text_of(member_of(part, "nickname"@)) == Some(playlist.creator.nickname@)
                    &&& u64_of(member_of(part, "avatarImgId"@))
                        == Some(playlist.creator.avatar_img_id)
                    &&& text_of(member_of(part, "avatarUrl"@)) == Some(playlist.creator.avatar_url@)
                    &&& u64_of(member_of(part, "backgroundImgId"@))
                        == Some(playlist.creator.background_img_id)
                    &&& text_of(member_of(part, "backgroundUrl"@))
                        == Some(playlist.creator.background_url@)
                    &&& text_of(member_of(part, "description"@))
                        == Some(playlist.creator.description@)
                    &&& text_of(member_of(part, "detailDescription"@))
                        == Some(playlist.creator.detail_description@)
                    &&& playlist.track_ids@.len() == list_of(body.member("trackIds"@))->0.len()
                    &&& list_of(body.member("trackIds"@)) is Some
                    &&& are_track_ids(list_of(body.member("trackIds"@))->0, playlist.track_ids@)
                    &&& parsed is Some
                    &&& playlist == (PlaylistDetail {
                        creator: playlist.creator,
                        track_ids: playlist.track_ids,
                        ..parsed->0
                    })
                },
                Err(error) => if list_of(body.member("trackIds"@)) is None {
                    error == ModelError::TrackIdsNotFound
                } else if creator_of(*body) is Err {
                    creator_of(*body) == Err::<AccountView, ModelError>(error)
                } else if parsed is None {
                    error == ModelError::PlaylistNotParsed
                } else {
                    !have_ids(list_of(body.member("trackIds"@))->0) && error
                        == ModelError::TrackIdNotFound
                },
            },
    {
        let tracks = match as_list(body.get("trackIds")) {
            Some(tracks) => tracks,
            None => return Err(ModelError::TrackIdsNotFound),
        };
        let creator = match Account::creator_from(body) {
            Ok(creator) => creator,
            Err(error) => return Err(error),
        };
        let mut playlist = match parsed {
            Some(playlist) => playlist,
            None => return Err(ModelError::PlaylistNotParsed),
        };
        let mut track_ids: Vec<u64> = Vec::new();
        let mut i: usize = 0;
        while i < tracks.len()
            invariant
                i <= tracks.len(),
                track_ids@.len() == i,
                forall|j: int|
                    0 <= j < i ==> u64_of(#[trigger] tracks@[j].member("id"@)) == Some(
                        track_ids@[j],
                    ),
                list_of(body.member("trackIds"@)) == Some(tracks@),
                creator_of(*body) is Ok,
                parsed is Some,
            decreases tracks.len() - i,
        {
            match as_u64(tracks[i].get("id")) {
                Some(id) => {
                    track_ids.push(id);
                },
                None => {
                    assert(u64_of(tracks@[i as int].member("id"@)) is None);
                    return Err(ModelError::TrackIdNotFound);
                },
            }
            i += 1;
        }
        playlist.creator = creator;
        playlist.track_ids = track_ids;
        Ok(playlist)
    }
}
/// Every field of the creator of a playlist is the member of the answer's creator with its own
/// name.
pub proof fn lemma_creator_is_read_member_by_member(body: Json, creator: AccountView)
    requires
        creator_of(body) == Ok::<AccountView, ModelError>(creator),
    ensures
        ({
            let part = body.member("creator"@);
            &&& u64_of(member_of(part, "userId"@)) == Some(creator.id)
            &&& text_of(member_of(part, "nickname"@)) == Some(creator.nickname)
            &&& u64_of(member_of(part, "avatarImgId"@)) == Some(creator.avatar_img_id)
            &&& text_of(member_of(part, "avatarUrl"@)) == Some(creator.avatar_url)
            &&& u64_of(member_of(part, "backgroundImgId"@)) == Some(creator.background_img_id)
            &&& text_of(member_of(part, "backgroundUrl"@)) == Some(creator.background_url)
            &&& text_of(member_of(part, "description"@)) == Some(creator.description)
            &&& text_of(member_of(part, "detailDescription"@)) == Some(creator.detail_description)
            &&& creator.remark_name == text_of(member_of(part, "remarkName"@))
            &&& creator.followed <==> bool_of(member_of(part, "followed"@)) == Some(true)
            &&& i64_of(member_of(part, "vipType"@)) is None ==> creator.vip_type == 0
            &&& i64_of(member_of(part, "vipType"@)) matches Some(number) ==> i32::MIN <= number
                <= i32::MAX ==> creator.vip_type == number
        }),
{
}

/// Every field of an account is the member of the answer's profile with its own name. The
/// identifier may stand in the account part instead, and the descriptions may be missing.
pub proof fn lemma_account_is_read_member_by_member(body: Json, account: AccountView)
    requires
        account_of(body) == Ok::<AccountView, ModelError>(account),
    ensures
        ({
            let part = body.member("profile"@);
            let other = body.member("account"@);
            &&& text_of(member_of(part, "nickname"@)) == Some(account.nickname)
            &&& u64_of(member_of(part, "avatarImgId"@)) == Some(account.avatar_img_id)
            &&& text_of(member_of(part, "avatarUrl"@)) == Some(account.avatar_url)
            &&& u64_of(member_of(part, "backgroundImgId"@)) == Some(account.background_img_id)
            &&& text_of(member_of(part, "backgroundUrl"@)) == Some(account.background_url)
            &&& account.remark_name == text_of(member_of(part, "remarkName"@))
            &&& account.followed <==> bool_of(member_of(part, "followed"@)) == Some(true)
            &&& i64_of(member_of(part, "vipType"@)) is None ==> account.vip_type == 0
            &&& i64_of(member_of(part, "vipType"@)) matches Some(number) ==> i32::MIN <= number
                <= i32::MAX ==> account.vip_type == number
            &&& u64_of(member_of(part, "userId"@)) matches Some(id) ==> account.id == id
            &&& u64_of(member_of(part, "userId"@)) is None && other is Some ==> u64_of(
                member_of(other, "id"@),
            ) == Some(account.id)
            &&& u64_of(member_of(part, "userId"@)) is None && other is None ==> u64_of(
                body.member("id"@),
            ) == Some(account.id)
            &&& text_of(member_of(part, "description"@)) matches Some(text)
                ==> account.description == text
            &&& text_of(member_of(part, "description"@)) is None ==> account.description.len() == 0
            &&& text_of(member_of(part, "detailDescription"@)) matches Some(text)
                ==> account.detail_description == text
            &&& text_of(member_of(part, "detailDescription"@)) is None
                ==> account.detail_description.len() == 0
        }),
{
}

/// An error names a member that is missing from the answer's creator, the first one in the order
/// in which they are read; and there is one exactly if a member is missing.
pub proof fn lemma_missing_member_of_the_creator_is_named(body: Json)
    ensures
        ({
            let part = body.member("creator"@);
            let id = u64_of(member_of(part, "userId"@)) is Some;
            let nickname = id && text_of(member_of(part, "nickname"@)) is Some;
            let avatar_url = nickname && text_of(member_of(part, "avatarUrl"@)) is Some;
            let avatar = avatar_url && u64_of(member_of(part, "avatarImgId"@)) is Some;
            let background = avatar && u64_of(member_of(part, "backgroundImgId"@)) is Some;
            let background_url = background && text_of(member_of(part, "backgroundUrl"@)) is Some;
            let description = background_url && text_of(member_of(part, "description"@)) is Some;
            let all = description && text_of(member_of(part, "detailDescription"@)) is Some;
            match creator_of(body) {
                Ok(_) => all,
                Err(error) => !all && error == (if !id {
                    ModelError::CreatorUserIdNotFound
                } else if !nickname {
                    ModelError::CreatorNicknameNotFound
                } else if !avatar_url {
                    ModelError::CreatorAvatarUrlNotFound
                } else if !avatar {
                    ModelError::CreatorAvatarImgIdNotFound
                } else if !background {
                    ModelError::CreatorBackgroundImgIdNotFound
                } else if !background_url {
                    ModelError::CreatorBackgroundUrlNotFound
                } else if !description {
                    ModelError::CreatorDescriptionNotFound
                } else {
                    ModelError::CreatorDetailDescriptionNotFound
                }),
            }
        }),
{
}

/// An error names a part or a member that is missing from an answer with an account, the first
/// one in the order in which they are read; and there is one exactly if one is missing.
pub proof fn lemma_missing_member_of_the_account_is_named(body: Json)
    ensures
        ({
            let part = body.member("profile"@);
            let account = if body.member("account"@) is Some {
                body.member("account"@)
            } else {
                Some(body)
            };
            let id = part is Some && (u64_of(member_of(part, "userId"@)) is Some || u64_of(
                member_of(account, "id"@),
            ) is Some);
            let nickname = id && text_of(member_of(part, "nickname"@)) is Some;
            let avatar = nickname && u64_of(member_of(part, "avatarImgId"@)) is Some;
            let avatar_url = avatar && text_of(member_of(part, "avatarUrl"@)) is Some;
            let background = avatar_url && u64_of(member_of(part, "backgroundImgId"@)) is Some;
            let all = background && text_of(member_of(part, "backgroundUrl"@)) is Some;
            match account_of(body) {
                Ok(_) => all,
                Err(error) => !all && error == (if part is None {
                    ModelError::ProfileNotFound
                } else if !id {
                    ModelError::AccountNotFound
                } else if !nickname {
                    ModelError::NicknameNotFound
                } else if !avatar {
                    ModelError::AvatarImgIdNotFound
                } else if !avatar_url {
                    ModelError::AvatarUrlNotFound
                } else if !background {
                    ModelError::BackgroundImgIdNotFound
                } else {
                    ModelError::BackgroundUrlNotFound
                }),
            }
        }),
{
}

/// What the errors of an answer are called.
pub proof fn lemma_texts_of_model_errors()
    ensures
        ModelError::ProfileNotFound.text() == "profile not found"@,
        ModelError::AccountNotFound.text() == "account not found"@,
        ModelError::NicknameNotFound.text() == "nickname not found"@,
        ModelError::AvatarImgIdNotFound.text() == "avatarImgId not found"@,
        ModelError::AvatarUrlNotFound.text() == "avatarUrl not found"@,
        ModelError::BackgroundImgIdNotFound.text() == "backgroundImgId not found"@,
        ModelError::BackgroundUrlNotFound.text() == "backgroundUrl not found"@,
        ModelError::TrackIdsNotFound.text() == "trackIds not found"@,
        ModelError::TrackIdNotFound.text() == "trackId id not found"@,
        ModelError::CreatorUserIdNotFound.text() == "creator userId not found"@,
        ModelError::CreatorNicknameNotFound.text() == "nickname nickname not found"@,
        ModelError::CreatorAvatarUrlNotFound.text() == "creator avatarUrl not found"@,
        ModelError::CreatorAvatarImgIdNotFound.text() == "creator avatarImgId not found"@,
        ModelError::CreatorBackgroundImgIdNotFound.text() == "creator backgroundImgId not found"@,
        ModelError::CreatorBackgroundUrlNotFound.text() == "creator backgroundUrl not found"@,
        ModelError::CreatorDescriptionNotFound.text() == "creator description not found"@,
        ModelError::CreatorDetailDescriptionNotFound.text() == "creator detailDescription not found"@,
        ModelError::PlaylistNotParsed.text() == "Failed to parse playlist details"@,
{
}

/// An account, a song and a playlist are spoken of by what they hold, each thing by its own name.
pub proof fn lemma_what_is_spoken_of(account: Account, track: TrackDetail, playlist: PlaylistDetail)
    ensures
        account@.id == account.id && account@.nickname == account.nickname@,
        account@.avatar_url == account.avatar_url@ && account@.avatar_img_id
            == account.avatar_img_id,
        account@.background_url == account.background_url@ && account@.background_img_id
            == account.background_img_id,
        account@.description == account.description@ && account@.detail_description
            == account.detail_description@,
        account@.followed == account.followed && account@.vip_type == account.vip_type,
        track@.id == track.id && track@.name == track.name@ && track@.duration == track.duration,
        track@.fee == track.fee && track@.artist.len() == track.artist@.len(),
        track@.album.id == track.album.id && track@.album.name == track.album.name@,
        track@.album.pic == track.album.pic && track@.album.pic_url == track.album.pic_url@,
        forall|i: int|
            0 <= i < track.artist@.len() ==> (#[trigger] track@.artist[i]).name
                == track.artist@[i].name@ && track@.artist[i].id == track.artist@[i].id,
        playlist@.id == playlist.id && playlist@.name == playlist.name@,
        playlist@.cover_img_id == playlist.cover_img_id && playlist@.cover_img_url
            == playlist.cover_img_url@,
        playlist@.description == playlist.description@ && playlist@.creator == playlist.creator@,
        playlist@.create_time == playlist.create_time && playlist@.play_count
            == playlist.play_count,
        playlist@.subscribed == playlist.subscribed && playlist@.track_count
            == playlist.track_count,
        playlist@.track_ids == playlist.track_ids@,
{
}

} // verus!
