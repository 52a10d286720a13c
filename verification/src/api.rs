//! Requests to the music service: what is asked, and how the answers are read.
//!
//! Nothing here touches the network. A request is described by an [`ApiRequest`]; the function
//! of the same name that ends in `_answer` reads what came back.
use std::collections::{HashMap, HashSet};

use vstd::prelude::*;

use crate::json::{as_list, as_text, as_u64, list_of, text_of, Json};
use crate::model::{PlaylistShortInfo, QrCode, TrackDetail, TrackUrl, UserPlaylists};
use crate::text::{
    append_decimal, decimal, decimal_text, join_texts, joined, signed_decimal, signed_decimal_text,
    texts,
};

pub mod download;
pub mod images;
pub mod songs;

verus! {

/// The sound qualities that songs are offered in.
#[derive(Clone, Copy, Debug, PartialEq, Eq, Structural)]
pub enum MusicQuality {
    Standard,
    Higher,
    ExHigh,
    Lossless,
    HiRes,
    JyEffect,
    Sky,
    Dolby,
    JyMaster,
}

impl MusicQuality {
    /// The name of a quality, as the service and the file names write it.
    pub open spec fn tag(self) -> Seq<char> {
        match self {
            MusicQuality::Standard => "standard"@,
            MusicQuality::Higher => "higher"@,
            MusicQuality::ExHigh => "exhigh"@,
            MusicQuality::Lossless => "lossless"@,
            MusicQuality::HiRes => "hires"@,
            MusicQuality::JyEffect => "jyeffect"@,
            MusicQuality::Sky => "sky"@,
            MusicQuality::Dolby => "dolby"@,
            MusicQuality::JyMaster => "jymaster"@,
        }
    }

    pub fn to_str(&self) -> (tag: &'static str)
        ensures
            tag@ == self.tag(),
    {
        match self {
            MusicQuality::Standard => "standard",
            MusicQuality::Higher => "higher",
            MusicQuality::ExHigh => "exhigh",
            MusicQuality::Lossless => "lossless",
            MusicQuality::HiRes => "hires",
            MusicQuality::JyEffect => "jyeffect",
            MusicQuality::Sky => "sky",
            MusicQuality::Dolby => "dolby",
            MusicQuality::JyMaster => "jymaster",
        }
    }

    pub fn to_string(&self) -> (tag: String)
        ensures
            tag@ == self.tag(),
    {
        self.to_str().to_string()
    }
}

/// What the service can be asked for.
#[derive(Clone, Copy, Debug, PartialEq, Eq, Structural)]
pub enum Endpoint {
    UserAccount,
    LoginQrKey,
    LoginQrCheck,
    PlaylistDetail,
    SongDetail,
    Likelist,
    UserPlaylist,
    SongUrlV1,
}

/// A request to the service.
#[derive(Debug)]
pub struct ApiRequest {
    pub endpoint: Endpoint,
    /// The names and the values of the parameters. No name occurs twice.
    pub params: Vec<(String, String)>,
    /// Whether the request pretends to come from some address in China.
    pub random_cn_ip: bool,
}

/// The names and the values of parameters.
pub open spec fn param_texts(params: Seq<(String, String)>) -> Seq<(Seq<char>, Seq<char>)> {
    params.map_values(|param: (String, String)| (param.0@, param.1@))
}

impl ApiRequest {
    /// Whether this asks `endpoint` with `params`.
    pub open spec fn asks(
        self,
        endpoint: Endpoint,
        params: Seq<(Seq<char>, Seq<char>)>,
        random_cn_ip: bool,
    ) -> bool {
        &&& self.endpoint == endpoint
        &&& param_texts(self.params@) == params
        &&& self.random_cn_ip == random_cn_ip
    }

    fn new(endpoint: Endpoint, random_cn_ip: bool) -> (request: ApiRequest)
        ensures
            request.asks(endpoint, Seq::empty(), random_cn_ip),
    {
        let request = ApiRequest { endpoint, params: Vec::new(), random_cn_ip };
        assert(param_texts(request.params@) =~= Seq::empty());
        request
    }

    fn param(&mut self, name: &str, value: String)
        ensures
            final(self).asks(
                old(self).endpoint,
                param_texts(old(self).params@).push((name@, value@)),
                old(self).random_cn_ip,
            ),
    {
        self.params.push((name.to_string(), value));
        assert(param_texts(self.params@) =~= param_texts(old(self).params@).push((name@, value@)));
    }
}

/// Why an answer of the service could not be used.
#[derive(Clone, Copy, Debug, PartialEq, Eq, Structural)]
pub enum ApiError {
    NoUnikey,
    SongsNotFound,
    IdsNotParsed,
    PlaylistNotFound,
    DataNotFound,
    /// An entry of a list could not be read.
    EntryNotParsed,
    UnsupportedImage,
    UnsupportedAudio,
}

impl ApiError {
    /// The text of an error.
    pub open spec fn text(self) -> Seq<char> {
        match self {
            ApiError::NoUnikey => "no unikey in response"@,
            ApiError::SongsNotFound => "songs not found"@,
            ApiError::IdsNotParsed => "failed to parse ids"@,
            ApiError::PlaylistNotFound => "playlist not found"@,
            ApiError::DataNotFound => "data not found in get_songs_url response"@,
            ApiError::EntryNotParsed => "failed to parse an entry"@,
            ApiError::UnsupportedImage => "unsupported image format, only png/jpg are allowed"@,
            ApiError::UnsupportedAudio =>
                "unsupported audio format, only mp3/flac/wav/ogg/m4a/aac are allowed"@,
        }
    }

    /// Says what is wrong.
    pub fn message(&self) -> (message: &'static str)
        ensures
            message@ == self.text(),
    {
        match self {
            ApiError::NoUnikey => "no unikey in response",
            ApiError::SongsNotFound => "songs not found",
            ApiError::IdsNotParsed => "failed to parse ids",
            ApiError::PlaylistNotFound => "playlist not found",
            ApiError::DataNotFound => "data not found in get_songs_url response",
            ApiError::EntryNotParsed => "failed to parse an entry",
            ApiError::UnsupportedImage => "unsupported image format, only png/jpg are allowed",
            ApiError::UnsupportedAudio =>
                "unsupported audio format, only mp3/flac/wav/ogg/m4a/aac are allowed",
        }
    }
}

/// The decimal notations of identifiers.
pub open spec fn decimals(ids: Seq<u64>) -> Seq<Seq<char>> {
    ids.map_values(|id: u64| decimal(id as nat))
}

/// The address that a login code leads to.
pub open spec fn login_url(unikey: Seq<char>) -> Seq<char> {
    "https://music.163.com/login?codekey="@ + unikey
}

/// The parameters of a request for a playlist, which may limit the number of subscribers.
pub open spec fn playlist_params(id: u64, s: Option<i32>) -> Seq<(Seq<char>, Seq<char>)> {
    match s {
        Some(s) => seq![("id"@, decimal(id as nat)), ("s"@, signed_decimal(s as int))],
        None => seq![("id"@, decimal(id as nat))],
    }
}

/// The values of those that are there, in order.
pub open spec fn all_parsed<T>(entries: Seq<Option<T>>) -> Seq<T> {
    entries.map_values(|entry: Option<T>| entry->0)
}

/// Whether every entry is there.
pub open spec fn is_complete<T>(entries: Seq<Option<T>>) -> bool {
    forall|i: int| 0 <= i < entries.len() ==> (#[trigger] entries[i]) is Some
}

/// The tracks by their identifiers. The last of several with one identifier counts.
pub open spec fn urls_by_id(tracks: Seq<TrackUrl>) -> Map<u64, TrackUrl>
    decreases tracks.len(),
{
    if tracks.len() == 0 {
        Map::empty()
    } else {
        urls_by_id(tracks.drop_last()).insert(tracks.last().id, tracks.last())
    }
}

/// Whether `ids` are the numbers of a list of numbers.
pub open spec fn are_numbers(values: Seq<Json>, ids: Set<u64>) -> bool {
    &&& forall|i: int| 0 <= i < values.len() ==> (#[trigger] values[i]) is Unsigned
    &&& forall|id: u64| #[trigger]
        ids.contains(id) <==> exists|i: int|
            0 <= i < values.len() && #[trigger] values[i] == Json::Unsigned(id)
}

/// What a session with the service remembers.
pub struct NcmApi {
    /// The cookie that requests to the service carry.
    client_cookie: String,
    /// The cookie that downloads carry: the one that the session started with.
    cookie: String,
    /// The images that are being downloaded.
    image_inflight: Vec<String>,
}

/// A session as contracts speak of it.
#[verifier::ext_equal]
pub struct NcmApiView {
    pub client_cookie: Seq<char>,
    pub cookie: Seq<char>,
    pub image_inflight: Set<Seq<char>>,
}

impl View for NcmApi {
    type V = NcmApiView;

    closed spec fn view(&self) -> NcmApiView {
        NcmApiView {
            client_cookie: self.client_cookie@,
            cookie: self.cookie@,
            image_inflight: texts(self.image_inflight@).to_set(),
        }
    }
}

impl NcmApi {
    /// Whether no image is noted twice as being downloaded.
    #[verifier::type_invariant]
    closed spec fn well_formed(self) -> bool {
        texts(self.image_inflight@).no_duplicates()
    }

    /// Starts a session.
    pub fn new(cookie: &str) -> (api: NcmApi)
        ensures
            api@ == (NcmApiView {
                client_cookie: cookie@,
                cookie: cookie@,
                image_inflight: Set::empty(),
            }),
    {
        let api = NcmApi {
            client_cookie: cookie.to_string(),
            cookie: cookie.to_string(),
            image_inflight: Vec::new(),
        };
        assert(texts(api.image_inflight@).to_set() =~= Set::<Seq<char>>::empty());
        api
    }

    /// Changes the cookie of later requests to the service. Downloads keep theirs.
    pub fn set_cookie(&mut self, cookie_str: &str)
        ensures
            final(self)@ == (NcmApiView { client_cookie: cookie_str@, ..old(self)@ }),
    {
        proof {
            use_type_invariant(&*self);
        }
        self.client_cookie = cookie_str.to_string();
    }

    /// The cookie that requests to the service carry.
    pub fn client_cookie(&self) -> (cookie: String)
        ensures
            cookie@ == self@.client_cookie,
    {
        self.client_cookie.clone()
    }

    /// The cookie that downloads carry.
    pub fn download_cookie(&self) -> (cookie: String)
        ensures
            cookie@ == self@.cookie,
    {
        self.cookie.clone()
    }

    /// Identifiers in decimal notation, with a comma between each two of them.
    pub fn comma_ids(ids: &Vec<u64>) -> (text: String)
        ensures
            text@ == joined(decimals(ids@), ","@),
    {
        let mut text = String::new();
        let mut i: usize = 0;
        while i < ids.len()
            invariant
                i <= ids.len(),
                text@ == joined(decimals(ids@.take(i as int)), ","@),
            decreases ids.len() - i,
        {
            let ghost shorter = decimals(ids@.take(i as int));
            let ghost longer = decimals(ids@.take(i + 1));
            assert(longer.drop_last() =~= shorter);
            assert(longer.last() == decimal(ids@[i as int] as nat));
            if i > 0 {
                text.append(",");
            }
            append_decimal(&mut text, ids[i]);
            assert(text@ =~= joined(longer, ","@));
            i += 1;
        }
        assert(ids@.take(i as int) =~= ids@);
        text
    }

    /// Asks who is logged in.
    pub fn user_account() -> (request: ApiRequest)
        ensures
            request.asks(Endpoint::UserAccount, Seq::empty(), false),
    {
        ApiRequest::new(Endpoint::UserAccount, false)
    }

    /// Asks for a login code.
    pub fn login_qrcode() -> (request: ApiRequest)
        ensures
            request.asks(Endpoint::LoginQrKey, Seq::empty(), true),
    {
        ApiRequest::new(Endpoint::LoginQrKey, true)
    }

    /// Reads a login code.
    pub fn login_qrcode_answer(body: &Json) -> (code: Result<QrCode, ApiError>)
        ensures
            match code {
                Ok(code) => {
                    &&& text_of(body.member("unikey"@)) == Some(code.unikey@)
                    &&& code.url@ == login_url(code.unikey@)
                    &&& code.url@ == "https://music.163.com/login?codekey="@ + code.unikey@
                },
                Err(error) => {
                    &&& text_of(body.member("unikey"@)) is None
                    &&& error == ApiError::NoUnikey
                },
            },
    {
        match as_text(body.get("unikey")) {
            Some(unikey) => {
                let mut url = "https://music.163.com/login?codekey=".to_string();
                url.append(unikey.as_str());
                Ok(QrCode { unikey, url })
            },
            None => Err(ApiError::NoUnikey),
        }
    }

    /// Asks whether a login code has been used.
    pub fn login_check_qrcode(qr_code: &QrCode) -> (request: ApiRequest)
        ensures
            request.asks(Endpoint::LoginQrCheck, seq![("key"@, qr_code.unikey@)], true),
    {
        let mut request = ApiRequest::new(Endpoint::LoginQrCheck, true);
        request.param("key", qr_code.unikey.clone());
        assert(param_texts(request.params@) =~= seq![("key"@, qr_code.unikey@)]);
        request
    }

    /// Puts the parts of a cookie together.
    pub fn login_check_qrcode_answer(cookies: &Vec<String>) -> (cookie: String)
        ensures
            cookie@ == joined(texts(cookies@), Seq::empty()),
    {
        let cookie = join_texts(cookies, "");
        proof {
            reveal_strlit("");
            assert(""@ =~= Seq::<char>::empty());
        }
        cookie
    }

    /// Asks for a playlist.
    pub fn playlist_detail(id: u64, s: Option<i32>) -> (request: ApiRequest)
        ensures
            request.asks(Endpoint::PlaylistDetail, playlist_params(id, s), false),
            request.endpoint == Endpoint::PlaylistDetail,
            request.params@.len() == (if s is Some {
                2int
            } else {
                1
            }),
            request.params@[0].0@ == "id"@ && request.params@[0].1@ == decimal(id as nat),
            s matches Some(s) ==> request.params@[1].0@ == "s"@ && request.params@[1].1@
                == signed_decimal(s as int),
    {
        let mut request = ApiRequest::new(Endpoint::PlaylistDetail, false);
        request.param("id", decimal_text(id));
        if let Some(s) = s {
            request.param("s", signed_decimal_text(s));
        }
        assert(param_texts(request.params@) =~= playlist_params(id, s));
        proof {
            lemma_request_asks_what_it_says(
                request,
                Endpoint::PlaylistDetail,
                playlist_params(id, s),
                false,
                0,
            );
            if s is Some {
                lemma_request_asks_what_it_says(
                    request,
                    Endpoint::PlaylistDetail,
                    playlist_params(id, s),
                    false,
                    1,
                );
            }
        }
        request
    }

    /// Asks for the details of songs. Of no songs nothing is asked.
    pub fn songs_detail(ids: &Vec<u64>) -> (request: Option<ApiRequest>)
        ensures
            request is None <==> ids@.len() == 0,
            request is Some ==> request->0.asks(
                Endpoint::SongDetail,
                seq![("ids"@, joined(decimals(ids@), ","@))],
                false,
            ),
    {
        if ids.len() == 0 {
            return None;
        }
        let mut request = ApiRequest::new(Endpoint::SongDetail, false);
        request.param("ids", NcmApi::comma_ids(ids));
        assert(param_texts(request.params@) =~= seq![("ids"@, joined(decimals(ids@), ","@))]);
        Some(request)
    }

    /// Reads the details of songs. `tracks` are the entries of the list that the answer holds,
    /// each if it could be read.
    pub fn songs_detail_answer(body: &Json, tracks: Vec<Option<TrackDetail>>) -> (answer: Result<
        Vec<TrackDetail>,
        ApiError,
    >)
        ensures
            match answer {
                Ok(details) => {
                    &&& list_of(body.member("songs"@)) is Some
                    &&& is_complete(tracks@)
                    &&& details@ == all_parsed(tracks@)
                },
                Err(error) => if list_of(body.member("songs"@)) is None {
                    error == ApiError::SongsNotFound
                } else {
                    !is_complete(tracks@) && error == ApiError::EntryNotParsed
                },
            },
    {
        if as_list(body.get("songs")).is_none() {
            return Err(ApiError::SongsNotFound);
        }
        collect_entries(tracks)
    }

    /// Asks which songs a user likes.
    pub fn like_list(uid: u64) -> (request: ApiRequest)
        ensures
            request.asks(Endpoint::Likelist, seq![("uid"@, decimal(uid as nat))], false),
    {
        let mut request = ApiRequest::new(Endpoint::Likelist, false);
        request.param("uid", decimal_text(uid));
        assert(param_texts(request.params@) =~= seq![("uid"@, decimal(uid as nat))]);
        request
    }

    /// Reads which songs a user likes.
    pub fn like_list_answer(body: &Json) -> (answer: Result<HashSet<u64>, ApiError>)
        ensures
            match answer {
                Ok(ids) => {
                    &&& list_of(body.member("ids"@)) is Some
                    &&& are_numbers(list_of(body.member("ids"@))->0, ids@)
                },
                Err(error) => {
                    &&& error == ApiError::IdsNotParsed
                    &&& match list_of(body.member("ids"@)) {
                        Some(values) => exists|i: int|
                            0 <= i < values.len() && !((#[trigger] values[i]) is Unsigned),
                        None => true,
                    }
                },
            },
    {
        broadcast use vstd::std_specs::hash::group_hash_axioms;

        let values = match as_list(body.get("ids")) {
            Some(values) => values,
            None => return Err(ApiError::IdsNotParsed),
        };
        let mut ids: HashSet<u64> = HashSet::new();
        let mut i: usize = 0;
        while i < values.len()
            invariant
                i <= values.len(),
                are_numbers(values@.take(i as int), ids@),
                list_of(body.member("ids"@)) == Some(values@),
            decreases values.len() - i,
        {
            let ghost before = ids@;
            let ghost shorter = values@.take(i as int);
            let ghost longer = values@.take(i + 1);
            match as_u64(Some(&values[i])) {
                Some(id) => {
                    ids.insert(id);
                    proof {
                        lemma_one_more_number(shorter, before, id);
                        assert(longer =~= shorter.push(Json::Unsigned(id)));
                    }
                },
                None => {
                    let ghost listed = list_of(body.member("ids"@))->0;
                    assert(!(listed[i as int] is Unsigned));
                    return Err(ApiError::IdsNotParsed);
                },
            }
            i += 1;
        }
        assert(values@.take(i as int) =~= values@);
        Ok(ids)
    }

    /// Asks for the playlists of a user.
    pub fn user_playlist(uid: u64) -> (request: ApiRequest)
        ensures
            request.asks(Endpoint::UserPlaylist, seq![("uid"@, decimal(uid as nat))], false),
    {
        let mut request = ApiRequest::new(Endpoint::UserPlaylist, false);
        request.param("uid", decimal_text(uid));
        assert(param_texts(request.params@) =~= seq![("uid"@, decimal(uid as nat))]);
        request
    }

    /// Reads the playlists of a user: the followed ones, and the others. `playlists` are the
    /// entries of the list that the answer holds, each if it could be read.
    pub fn user_playlist_answer(
        body: &Json,
        playlists: Vec<Option<PlaylistShortInfo>>,
    ) -> (answer: Result<UserPlaylists, ApiError>)
        ensures
            match answer {
                Ok(answer) => {
                    let all = all_parsed(playlists@);
                    &&& list_of(body.member("playlist"@)) is Some
                    &&& is_complete(playlists@)
                    &&& answer.created@ == all.filter(|p: PlaylistShortInfo| !p.subscribed)
                    &&& answer.subscribed@ == all.filter(|p: PlaylistShortInfo| p.subscribed)
                },
                Err(error) => if list_of(body.member("playlist"@)) is None {
                    error == ApiError::PlaylistNotFound
                } else {
                    !is_complete(playlists@) && error == ApiError::EntryNotParsed
                },
            },
    {
        if as_list(body.get("playlist")).is_none() {
            return Err(ApiError::PlaylistNotFound);
        }
        let ghost is_created = |p: PlaylistShortInfo| !p.subscribed;
        let ghost is_followed = |p: PlaylistShortInfo| p.subscribed;
        let mut rest = match collect_entries(playlists) {
            Ok(rest) => rest,
            Err(error) => return Err(error),
        };
        let ghost all = rest@;
        let mut created: Vec<PlaylistShortInfo> = Vec::new();
        let mut subscribed: Vec<PlaylistShortInfo> = Vec::new();
        // Taken from the end, so both lists come out turned round.
        while rest.len() > 0
            invariant
                rest@.len() <= all.len(),
                rest@ == all.take(rest@.len() as int),
                created@.reverse() == all.skip(rest@.len() as int).filter(is_created),
                subscribed@.reverse() == all.skip(rest@.len() as int).filter(is_followed),
                is_created == (|p: PlaylistShortInfo| !p.subscribed),
                is_followed == (|p: PlaylistShortInfo| p.subscribed),
            decreases rest@.len(),
        {
            let ghost n = rest@.len() as int;
            let playlist = rest.pop().unwrap();
            proof {
                assert(rest@ =~= all.take(n - 1));
                assert(all.skip(n - 1) =~= seq![playlist] + all.skip(n));
                lemma_filter_first(playlist, all.skip(n), is_created);
                lemma_filter_first(playlist, all.skip(n), is_followed);
            }
            if playlist.subscribed {
                let ghost before = subscribed@;
                subscribed.push(playlist);
                assert(subscribed@.reverse() =~= seq![playlist] + before.reverse());
            } else {
                let ghost before = created@;
                created.push(playlist);
                assert(created@.reverse() =~= seq![playlist] + before.reverse());
            }
        }
        assert(all.skip(0) =~= all);
        let created = reversed(created);
        let subscribed = reversed(subscribed);
        Ok(UserPlaylists { created, subscribed })
    }

    /// Asks where songs can be downloaded from.
    pub fn songs_url(ids: &Vec<u64>, br: MusicQuality) -> (request: ApiRequest)
        ensures
            request.asks(
                Endpoint::SongUrlV1,
                seq![("id"@, joined(decimals(ids@), ","@)), ("level"@, br.tag())],
                false,
            ),
    {
        let mut request = ApiRequest::new(Endpoint::SongUrlV1, false);
        request.param("id", NcmApi::comma_ids(ids));
        request.param("level", br.to_string());
        assert(param_texts(request.params@) =~= seq![
            ("id"@, joined(decimals(ids@), ","@)),
            ("level"@, br.tag()),
        ]);
        request
    }

    /// Reads where songs can be downloaded from. `tracks` are the entries of the list that the
    /// answer holds.
    pub fn songs_url_answer(body: &Json, tracks: Vec<TrackUrl>) -> (answer: Result<
        HashMap<u64, TrackUrl>,
        ApiError,
    >)
        ensures
            match answer {
                Ok(urls) => {
                    &&& list_of(body.member("data"@)) is Some
                    &&& urls@ == urls_by_id(tracks@)
                },
                Err(error) => {
                    &&& list_of(body.member("data"@)) is None
                    &&& error == ApiError::DataNotFound
                },
            },
    {
        broadcast use vstd::std_specs::hash::group_hash_axioms;

        if as_list(body.get("data")).is_none() {
            return Err(ApiError::DataNotFound);
        }
        let ghost all = tracks@;
        let mut rest = reversed(tracks);
        let mut urls: HashMap<u64, TrackUrl> = HashMap::new();
        let ghost mut done: int = 0;
        while rest.len() > 0
            invariant
                0 <= done <= all.len(),
                rest@ == all.skip(done).reverse(),
                urls@ == urls_by_id(all.take(done)),
            decreases rest@.len(),
        {
            let track = rest.pop().unwrap();
            proof {
                assert(track == all[done]);
                assert(rest@ =~= all.skip(done + 1).reverse());
                assert(all.take(done + 1).drop_last() =~= all.take(done));
                assert(all.take(done + 1).last() == track);
                done = done + 1;
            }
            urls.insert(track.id, track);
        }
        assert(all.take(done) =~= all);
        Ok(urls)
    }
}

/// All entries, if every one is there.
fn collect_entries<T>(entries: Vec<Option<T>>) -> (all: Result<Vec<T>, ApiError>)
    ensures
        match all {
            Ok(all) => is_complete(entries@) && all@ == all_parsed(entries@),
            Err(error) => !is_complete(entries@) && error == ApiError::EntryNotParsed,
        },
{
    let ghost given = entries@;
    let mut rest = entries;
    let mut all: Vec<T> = Vec::new();
    while rest.len() > 0
        invariant
            given == entries@,
            rest@.len() <= given.len(),
            rest@ == given.take(rest@.len() as int),
            forall|i: int| rest@.len() <= i < given.len() ==> (#[trigger] given[i]) is Some,
            all@.reverse() == all_parsed(given.skip(rest@.len() as int)),
        decreases rest@.len(),
    {
        let ghost n = rest@.len() as int;
        match rest.pop().unwrap() {
            Some(entry) => {
                let ghost before = all@;
                all.push(entry);
                proof {
                    assert(given[n - 1] == Some(entry));
                    assert(rest@ =~= given.take(n - 1));
                    assert(all@.reverse() =~= seq![entry] + before.reverse());
                    assert(all_parsed(given.skip(n - 1)) =~= seq![entry] + all_parsed(
                        given.skip(n),
                    ));
                }
            },
            None => {
                assert(given[n - 1] is None);
                return Err(ApiError::EntryNotParsed);
            },
        }
    }
    assert(given.skip(0) =~= given);
    Ok(reversed(all))
}

/// A list turned round.
pub(crate) fn reversed<T>(list: Vec<T>) -> (turned: Vec<T>)
    ensures
        turned@ == list@.reverse(),
{
    let ghost given = list@;
    let mut rest = list;
    let mut turned: Vec<T> = Vec::new();
    while rest.len() > 0
        invariant
            rest@.len() <= given.len(),
            rest@ == given.take(rest@.len() as int),
            turned@ == given.skip(rest@.len() as int).reverse(),
        decreases rest@.len(),
    {
        let ghost n = rest@.len() as int;
        let entry = rest.pop().unwrap();
        turned.push(entry);
        assert(rest@ =~= given.take(n - 1));
        assert(turned@ =~= given.skip(n - 1).reverse());
    }
    assert(given.skip(0) =~= given);
    turned
}

proof fn lemma_filter_first<T>(first: T, rest: Seq<T>, keep: spec_fn(T) -> bool)
    ensures
        (seq![first] + rest).filter(keep) == (if keep(first) {
            seq![first] + rest.filter(keep)
        } else {
            rest.filter(keep)
        }),
{
    Seq::filter_distributes_over_add(seq![first], rest, keep);
    reveal_with_fuel(Seq::filter, 2);
    assert(seq![first].drop_last() =~= Seq::empty());
    assert(seq![first].filter(keep) =~= if keep(first) {
        seq![first]
    } else {
        Seq::empty()
    });
    assert(Seq::<T>::empty() + rest.filter(keep) =~= rest.filter(keep));
}

proof fn lemma_one_more_number(values: Seq<Json>, ids: Set<u64>, id: u64)
    requires
        are_numbers(values, ids),
    ensures
        are_numbers(values.push(Json::Unsigned(id)), ids.insert(id)),
{
    let longer = values.push(Json::Unsigned(id));
    assert forall|n: u64| #[trigger]
        ids.insert(id).contains(n) <==> exists|i: int|
            0 <= i < longer.len() && #[trigger] longer[i] == Json::Unsigned(n) by {
        if ids.contains(n) {
            let i = choose|i: int| 0 <= i < values.len() && #[trigger] values[i] == Json::Unsigned(n);
            assert(longer[i] == Json::Unsigned(n));
        }
        assert(longer.last() == Json::Unsigned(id));
        if exists|i: int| 0 <= i < longer.len() && #[trigger] longer[i] == Json::Unsigned(n) {
            let i = choose|i: int|
                0 <= i < longer.len() && #[trigger] longer[i] == Json::Unsigned(n);
            if i < values.len() {
                assert(values[i] == Json::Unsigned(n));
            }
        }
    }
}

/// A request that asks something has just that endpoint, those parameters in that order, and that
/// address.
pub proof fn lemma_request_asks_what_it_says(
    request: ApiRequest,
    endpoint: Endpoint,
    params: Seq<(Seq<char>, Seq<char>)>,
    random_cn_ip: bool,
    i: int,
)
    requires
        request.asks(endpoint, params, random_cn_ip),
    ensures
        request.endpoint == endpoint,
        request.random_cn_ip == random_cn_ip,
        request.params@.len() == params.len(),
        0 <= i < params.len() ==> request.params@[i].0@ == params[i].0 && request.params@[i].1@
            == params[i].1,
{
    assert(param_texts(request.params@).len() == request.params@.len());
    if 0 <= i < params.len() {
        assert(param_texts(request.params@)[i] == params[i]);
    }
}

/// Identifiers are listed in their order, in decimal notation, with a comma between each two.
pub proof fn lemma_identifiers_are_listed(ids: Seq<u64>, last: u64)
    ensures
        joined(decimals(Seq::empty()), ","@).len() == 0,
        joined(decimals(seq![last]), ","@) == decimal(last as nat),
        ids.len() > 0 ==> joined(decimals(ids.push(last)), ","@) == joined(decimals(ids), ","@)
            + ","@ + decimal(last as nat),
{
    assert(decimals(Seq::empty()) =~= Seq::<Seq<char>>::empty());
    assert(decimals(seq![last]) =~= seq![decimal(last as nat)]);
    assert(decimals(ids.push(last)) =~= decimals(ids).push(decimal(last as nat)));
    crate::text::lemma_joining_separates_the_parts(decimals(ids), decimal(last as nat), ","@);
}

/// Of several addresses of one song the last one counts, and a song without one has none.
pub proof fn lemma_last_address_counts(tracks: Seq<TrackUrl>, i: int, id: u64)
    ensures
        0 <= i < tracks.len() && tracks[i].id == id && (forall|j: int|
            i < j < tracks.len() ==> (#[trigger] tracks[j]).id != id) ==> urls_by_id(
            tracks,
        ).contains_key(id) && urls_by_id(tracks)[id] == tracks[i],
        (forall|j: int| 0 <= j < tracks.len() ==> (#[trigger] tracks[j]).id != id) ==> !urls_by_id(
            tracks,
        ).contains_key(id),
    decreases tracks.len(),
{
    if tracks.len() > 0 {
        let rest = tracks.drop_last();
        lemma_last_address_counts(rest, i, id);
        assert forall|j: int| 0 <= j < rest.len() implies rest[j] == tracks[j] by {}
        assert(tracks[tracks.len() - 1] == tracks.last());
        if tracks.last().id != id {
            if forall|j: int| 0 <= j < tracks.len() ==> (#[trigger] tracks[j]).id != id {
                assert forall|j: int| 0 <= j < rest.len() implies (#[trigger] rest[j]).id != id by {
                    assert(rest[j] == tracks[j]);
                }
            }
            if 0 <= i < tracks.len() && tracks[i].id == id && (forall|j: int|
                i < j < tracks.len() ==> (#[trigger] tracks[j]).id != id) {
                assert(rest[i] == tracks[i]);
                assert forall|j: int| i < j < rest.len() implies (#[trigger] rest[j]).id != id by {
                    assert(rest[j] == tracks[j]);
                }
            }
        }
    }
}

/// The entries that could be read come out as they are, each at its place.
pub proof fn lemma_entries_keep_their_places<T>(entries: Seq<Option<T>>, i: int)
    requires
        is_complete(entries),
        0 <= i < entries.len(),
    ensures
        all_parsed(entries).len() == entries.len(),
        entries[i] == Some(all_parsed(entries)[i]),
{
    assert(entries[i] is Some);
}

/// The songs that a user likes are just the numbers of the list, which holds nothing else.
pub proof fn lemma_liked_songs_are_the_listed_numbers(values: Seq<Json>, ids: Set<u64>, i: int)
    requires
        are_numbers(values, ids),
        0 <= i < values.len(),
    ensures
        values[i] matches Json::Unsigned(id) && ids.contains(id),
{
    assert(values[i] is Unsigned);
    let id = values[i]->Unsigned_0;
    assert(values[i] == Json::Unsigned(id));
    assert(ids.contains(id));
}

/// What the errors of the service are called.
pub proof fn lemma_texts_of_api_errors()
    ensures
        ApiError::NoUnikey.text() == "no unikey in response"@,
        ApiError::SongsNotFound.text() == "songs not found"@,
        ApiError::IdsNotParsed.text() == "failed to parse ids"@,
        ApiError::PlaylistNotFound.text() == "playlist not found"@,
        ApiError::DataNotFound.text() == "data not found in get_songs_url response"@,
        ApiError::EntryNotParsed.text() == "failed to parse an entry"@,
        ApiError::UnsupportedImage.text() == "unsupported image format, only png/jpg are allowed"@,
        ApiError::UnsupportedAudio.text() == "unsupported audio format, only mp3/flac/wav/ogg/m4a/aac are allowed"@,
{
}

} // verus!
