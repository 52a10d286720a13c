//! Downloading: what a request carries, when it is tried again, and what kind of file came.
use vstd::prelude::*;

use crate::api::{ApiError, NcmApi};
use crate::config::Config;

verus! {

/// How one attempt to download ended.
#[derive(Clone, Copy, Debug, PartialEq, Eq, Structural)]
pub enum Attempt {
    /// The request could not be sent.
    SendFailed,
    /// The answer has a status that is not a success.
    BadStatus(u16),
    /// The answer came, but reading its body failed.
    BodyFailed,
    /// The whole answer came. This is its length.
    Body(usize),
}

/// Why a download failed.
#[derive(Clone, Copy, Debug, PartialEq, Eq, Structural)]
pub enum DownloadError {
    SendFailed,
    BadStatus(u16),
    BodyFailed,
    EmptyFile,
}

/// What follows an attempt to download.
#[derive(Clone, Copy, Debug, PartialEq, Eq, Structural)]
pub enum DownloadStep {
    /// Wait so many milliseconds and make the next attempt.
    Retry(u64),
    Fail(DownloadError),
    /// The body that came is the result.
    Done,
}

/// Whether an answer with this status may be followed by a better one.
pub open spec fn is_temporary(status: u16) -> bool {
    status == 429 || 500 <= status <= 599
}

/// Whether the next attempt may fare better than one that ended like this.
pub open spec fn is_worth_retrying(attempt: Attempt) -> bool {
    match attempt {
        Attempt::SendFailed => true,
        Attempt::BadStatus(status) => is_temporary(status),
        Attempt::BodyFailed => false,
        Attempt::Body(length) => length == 0,
    }
}

/// How long to wait after the attempt with this number: 150 ms, doubled each time.
pub open spec fn backoff_ms(number: nat) -> nat
    decreases number,
{
    if number == 0 {
        150
    } else {
        2 * backoff_ms((number - 1) as nat)
    }
}

/// What an attempt amounts to when it is the last one.
pub open spec fn final_step(attempt: Attempt) -> DownloadStep {
    match attempt {
        Attempt::SendFailed => DownloadStep::Fail(DownloadError::SendFailed),
        Attempt::BadStatus(status) => DownloadStep::Fail(DownloadError::BadStatus(status)),
        Attempt::BodyFailed => DownloadStep::Fail(DownloadError::BodyFailed),
        Attempt::Body(length) => if length == 0 {
            DownloadStep::Fail(DownloadError::EmptyFile)
        } else {
            DownloadStep::Done
        },
    }
}

/// What follows the attempt with this number, counted from 0.
pub open spec fn step_after(number: nat, attempt: Attempt) -> DownloadStep {
    if number < 2 && is_worth_retrying(attempt) {
        DownloadStep::Retry(backoff_ms(number) as u64)
    } else {
        final_step(attempt)
    }
}

/// How a download ends whose attempts end as `attempts` says, from the one with this number on.
pub open spec fn outcome(attempts: spec_fn(nat) -> Attempt, number: nat) -> DownloadStep
    decreases 2 - number,
{
    match step_after(number, attempts(number)) {
        DownloadStep::Retry(_) => outcome(attempts, number + 1),
        step => step,
    }
}

/// The header fields of a download. The cookie is there unless it is empty.
pub open spec fn header_texts(cookie: Seq<char>) -> Seq<(Seq<char>, Seq<char>)> {
    let fixed = seq![
        (
            "user-agent"@,
            "Mozilla/5.0 (Windows NT 10.0; Win64; x64) AppleWebKit/537.36 (KHTML, like Gecko) Chrome/135.0.0.0 Safari/537.36"@,
        ),
        ("referer"@, "https://music.163.com/"@),
        ("cache-control"@, "no-cache"@),
        ("pragma"@, "no-cache"@),
    ];
    if cookie.len() == 0 {
        fixed
    } else {
        fixed.push(("cookie"@, cookie))
    }
}

/// Whether bytes start with others.
pub open spec fn starts_with(bytes: Seq<u8>, magic: Seq<u8>) -> bool {
    magic.len() <= bytes.len() && bytes.take(magic.len() as int) == magic
}

/// Whether bytes hold others at an offset.
pub open spec fn holds_at(bytes: Seq<u8>, offset: int, magic: Seq<u8>) -> bool {
    starts_with(bytes.skip(offset), magic)
}

/// The bytes of a text that is made of ASCII characters.
pub open spec fn ascii(text: Seq<char>) -> Seq<u8> {
    text.map_values(|c: char| c as u8)
}

/// What a PNG file starts with.
pub open spec fn png_magic() -> Seq<u8> {
    seq![0x89u8, 0x50, 0x4e, 0x47, 0x0d, 0x0a, 0x1a, 0x0a]
}

/// What a JPEG file starts with.
pub open spec fn jpg_magic() -> Seq<u8> {
    seq![0xffu8, 0xd8, 0xff]
}

/// The kind of an image file, by its first bytes.
pub open spec fn image_extension(bytes: Seq<u8>) -> Option<Seq<char>> {
    if starts_with(bytes, png_magic()) {
        Some("png"@)
    } else if starts_with(bytes, jpg_magic()) {
        Some("jpg"@)
    } else {
        None
    }
}

/// The kind of a sound file, by its first bytes. What starts with eleven set bits is an MPEG
/// frame and counts as `mp3`, a raw AAC stream too.
pub open spec fn audio_extension(bytes: Seq<u8>) -> Option<Seq<char>> {
    if starts_with(bytes, ascii("fLaC"@)) {
        Some("flac"@)
    } else if starts_with(bytes, ascii("OggS"@)) {
        Some("ogg"@)
    } else if starts_with(bytes, ascii("ID3"@)) || (bytes.len() >= 2 && bytes[0] == 0xff && bytes[1]
        >= 0xe0) {
        Some("mp3"@)
    } else if bytes.len() >= 12 && starts_with(bytes, ascii("RIFF"@)) && holds_at(
        bytes,
        8,
        ascii("WAVE"@),
    ) {
        Some("wav"@)
    } else if bytes.len() >= 12 && holds_at(bytes, 4, ascii("ftyp"@)) {
        Some("m4a"@)
    } else {
        None
    }
}

/// Compares the bytes at an offset.
fn has_bytes(bytes: &[u8], offset: usize, magic: &[u8]) -> (same: bool)
    ensures
        same == (offset <= bytes@.len() && holds_at(bytes@, offset as int, magic@)),
{
    let ghost part = bytes@.skip(offset as int).take(magic@.len() as int);
    if offset > bytes.len() || magic.len() > bytes.len() - offset {
        return false;
    }
    let mut i: usize = 0;
    while i < magic.len()
        invariant
            i <= magic.len(),
            offset + magic.len() <= bytes.len(),
            part == bytes@.skip(offset as int).take(magic@.len() as int),
            forall|j: int| 0 <= j < i ==> part[j] == magic@[j],
        decreases magic.len() - i,
    {
        assert(part[i as int] == bytes@[offset + i]);
        if bytes[offset + i] != magic[i] {
            return false;
        }
        i += 1;
    }
    assert(part =~= magic@);
    true
}

/// Compares the first bytes.
fn has_prefix(bytes: &[u8], magic: &[u8]) -> (same: bool)
    ensures
        same == starts_with(bytes@, magic@),
{
    assert(bytes@.skip(0) =~= bytes@);
    has_bytes(bytes, 0, magic)
}

impl NcmApi {
    /// Whether a download with this status is worth another attempt.
    pub fn should_retry_status(status: u16) -> (retry: bool)
        ensures
            retry == is_temporary(status),
    {
        status == 429 || (500 <= status && status <= 599)
    }

    /// Decides what follows an attempt to download. Attempts are counted from 0.
    pub fn download_bytes(number: usize, attempt: Attempt) -> (step: DownloadStep)
        ensures
            step == step_after(number as nat, attempt),
    {
        let again = match attempt {
            Attempt::SendFailed => true,
            Attempt::BadStatus(status) => NcmApi::should_retry_status(status),
            Attempt::BodyFailed => false,
            Attempt::Body(length) => length == 0,
        };
        if again && number < Config::DOWNLOAD_MAX_RETRIES {
            proof {
                reveal_with_fuel(backoff_ms, 2);
            }
            let factor: u64 = if number == 0 {
                1
            } else {
                2
            };
            return DownloadStep::Retry(Config::DOWNLOAD_RETRY_BACKOFF_MS * factor);
        }
        match attempt {
            Attempt::SendFailed => DownloadStep::Fail(DownloadError::SendFailed),
            Attempt::BadStatus(status) => DownloadStep::Fail(DownloadError::BadStatus(status)),
            Attempt::BodyFailed => DownloadStep::Fail(DownloadError::BodyFailed),
            Attempt::Body(length) => {
                if length == 0 {
                    DownloadStep::Fail(DownloadError::EmptyFile)
                } else {
                    DownloadStep::Done
                }
            },
        }
    }

    /// The header fields that a download carries.
    pub fn download_headers(&self) -> (headers: Vec<(String, String)>)
        ensures
            crate::api::param_texts(headers@) == header_texts(self@.cookie),
    {
        let mut headers: Vec<(String, String)> = Vec::new();
        headers.push(
            (
                "user-agent".to_string(),
                "Mozilla/5.0 (Windows NT 10.0; Win64; x64) AppleWebKit/537.36 (KHTML, like Gecko) Chrome/135.0.0.0 Safari/537.36".to_string(),
            ),
        );
        headers.push(("referer".to_string(), "https://music.163.com/".to_string()));
        headers.push(("cache-control".to_string(), "no-cache".to_string()));
        headers.push(("pragma".to_string(), "no-cache".to_string()));
        let cookie = self.download_cookie();
        if cookie.as_str().unicode_len() > 0 {
            headers.push(("cookie".to_string(), cookie));
        }
        assert(crate::api::param_texts(headers@) =~= header_texts(self@.cookie));
        headers
    }

    /// Tells the kind of an image file.
    pub fn detect_image_extension(bytes: &[u8]) -> (extension: Result<&'static str, ApiError>)
        ensures
            match extension {
                Ok(extension) => image_extension(bytes@) == Some(extension@),
                Err(error) => image_extension(bytes@) is None && error
                    == ApiError::UnsupportedImage,
            },
    {
        let png: [u8; 8] = [0x89, 0x50, 0x4e, 0x47, 0x0d, 0x0a, 0x1a, 0x0a];
        assert(png@ =~= png_magic());
        if has_prefix(bytes, &png) {
            return Ok("png");
        }
        let jpg: [u8; 3] = [0xff, 0xd8, 0xff];
        assert(jpg@ =~= jpg_magic());
        if has_prefix(bytes, &jpg) {
            return Ok("jpg");
        }
        Err(ApiError::UnsupportedImage)
    }

    /// Tells the kind of a sound file.
    pub fn detect_audio_extension(bytes: &[u8]) -> (extension: Result<&'static str, ApiError>)
        ensures
            match extension {
                Ok(extension) => audio_extension(bytes@) == Some(extension@),
                Err(error) => audio_extension(bytes@) is None && error
                    == ApiError::UnsupportedAudio,
            },
    {
        let flac: [u8; 4] = [0x66, 0x4c, 0x61, 0x43];
        let ogg: [u8; 4] = [0x4f, 0x67, 0x67, 0x53];
        let id3: [u8; 3] = [0x49, 0x44, 0x33];
        let riff: [u8; 4] = [0x52, 0x49, 0x46, 0x46];
        let wave: [u8; 4] = [0x57, 0x41, 0x56, 0x45];
        let ftyp: [u8; 4] = [0x66, 0x74, 0x79, 0x70];
        proof {
            reveal_strlit("fLaC");
            reveal_strlit("OggS");
            reveal_strlit("ID3");
            reveal_strlit("RIFF");
            reveal_strlit("WAVE");
            reveal_strlit("ftyp");
            assert(flac@ =~= ascii("fLaC"@));
            assert(ogg@ =~= ascii("OggS"@));
            assert(id3@ =~= ascii("ID3"@));
            assert(riff@ =~= ascii("RIFF"@));
            assert(wave@ =~= ascii("WAVE"@));
            assert(ftyp@ =~= ascii("ftyp"@));
        }
        if has_prefix(bytes, &flac) {
            return Ok("flac");
        }
        if has_prefix(bytes, &ogg) {
            return Ok("ogg");
        }
        if has_prefix(bytes, &id3) || (bytes.len() >= 2 && bytes[0] == 0xff && bytes[1] >= 0xe0) {
            return Ok("mp3");
        }
        if bytes.len() >= 12 && has_prefix(bytes, &riff) && has_bytes(bytes, 8, &wave) {
            return Ok("wav");
        }
        if bytes.len() >= 12 && has_bytes(bytes, 4, &ftyp) {
            return Ok("m4a");
        }
        Err(ApiError::UnsupportedAudio)
    }
}

/// A download is attempted at most three times.
pub proof fn lemma_download_ends(number: nat, attempt: Attempt)
    requires
        number >= 2,
    ensures
        !(step_after(number, attempt) is Retry),
{
}

/// A download succeeds exactly if one of its attempts brings a file and every one before that,
/// at most two, is worth retrying.
pub proof fn lemma_download_succeeds(attempts: spec_fn(nat) -> Attempt)
    ensures
        outcome(attempts, 0) is Done <==> exists|n: nat|
            n <= 2 && #[trigger] final_step(attempts(n)) is Done && forall|m: nat|
                m < n ==> #[trigger] is_worth_retrying(attempts(m)),
        !(outcome(attempts, 0) is Retry),
{
    reveal_with_fuel(outcome, 4);
    if outcome(attempts, 0) is Done {
        let n: nat = if !is_worth_retrying(attempts(0)) {
            0
        } else if !is_worth_retrying(attempts(1)) {
            1
        } else {
            2
        };
        assert(final_step(attempts(n)) is Done);
        assert forall|m: nat| m < n implies #[trigger] is_worth_retrying(attempts(m)) by {
            assert(m == 0 || m == 1);
        }
    }
    if exists|n: nat|
        n <= 2 && #[trigger] final_step(attempts(n)) is Done && forall|m: nat|
            m < n ==> #[trigger] is_worth_retrying(attempts(m)) {
        let n = choose|n: nat|
            n <= 2 && #[trigger] final_step(attempts(n)) is Done && forall|m: nat|
                m < n ==> #[trigger] is_worth_retrying(attempts(m));
        assert(!is_worth_retrying(attempts(n)));
        if n > 0 {
            assert(is_worth_retrying(attempts(0)));
        }
        if n > 1 {
            assert(is_worth_retrying(attempts(1)));
        }
    }
}

/// A raw AAC stream starts with eleven set bits, so it is never told from an MPEG frame.
pub proof fn lemma_aac_counts_as_mp3(bytes: Seq<u8>)
    requires
        bytes.len() >= 2,
        bytes[0] == 0xff,
        bytes[1] == 0xf1 || bytes[1] == 0xf9,
    ensures
        audio_extension(bytes) == Some("mp3"@),
{
    reveal_strlit("fLaC");
    reveal_strlit("OggS");
    if starts_with(bytes, ascii("fLaC"@)) {
        assert(bytes.take(4)[0] == ascii("fLaC"@)[0]);
    }
    if starts_with(bytes, ascii("OggS"@)) {
        assert(bytes.take(4)[0] == ascii("OggS"@)[0]);
    }
}

/// Which attempts are followed by another one: the first two, if the request could not be sent,
/// the service was busy or broken, or an empty file came. The wait is 150 milliseconds after the
/// first attempt and 300 after the second.
pub proof fn lemma_which_attempts_are_repeated(number: nat, attempt: Attempt)
    ensures
        step_after(number, attempt) is Retry <==> number < 2 && (match attempt {
            Attempt::SendFailed => true,
            Attempt::BadStatus(status) => status == 429 || 500 <= status < 600,
            Attempt::BodyFailed => false,
            Attempt::Body(length) => length == 0,
        }),
        step_after(0, attempt) matches DownloadStep::Retry(wait) ==> wait == 150,
        step_after(1, attempt) matches DownloadStep::Retry(wait) ==> wait == 300,
{
    reveal_with_fuel(backoff_ms, 3);
}

/// What an attempt that is not repeated amounts to: a file that is not empty is the result, and
/// everything else fails for its own reason.
pub proof fn lemma_what_an_attempt_amounts_to(number: nat, attempt: Attempt)
    requires
        !(step_after(number, attempt) is Retry),
    ensures
        step_after(number, attempt) == DownloadStep::Done <==> (attempt matches Attempt::Body(length)
            && length > 0),
        attempt == Attempt::SendFailed ==> step_after(number, attempt) == DownloadStep::Fail(
            DownloadError::SendFailed,
        ),
        attempt == Attempt::BodyFailed ==> step_after(number, attempt) == DownloadStep::Fail(
            DownloadError::BodyFailed,
        ),
        attempt == Attempt::Body(0) ==> step_after(number, attempt) == DownloadStep::Fail(
            DownloadError::EmptyFile,
        ),
        attempt matches Attempt::BadStatus(status) ==> step_after(number, attempt)
            == DownloadStep::Fail(DownloadError::BadStatus(status)),
{
}

/// A download says that it comes from a browser on the pages of the service and wants no old
/// copy. It carries the cookie if there is one, and nothing else.
pub proof fn lemma_header_of_a_download(cookie: Seq<char>)
    ensures
        header_texts(cookie).len() == (if cookie.len() == 0 {
            4int
        } else {
            5
        }),
        header_texts(cookie)[0].0 == "user-agent"@,
        header_texts(cookie)[1] == ("referer"@, "https://music.163.com/"@),
        header_texts(cookie)[2] == ("cache-control"@, "no-cache"@),
        header_texts(cookie)[3] == ("pragma"@, "no-cache"@),
        cookie.len() > 0 ==> header_texts(cookie)[4] == ("cookie"@, cookie),
{
}

/// An image file is told by its first bytes: the eight of PNG or the three of JPEG. Anything else
/// is no image that is kept.
pub proof fn lemma_kind_of_an_image(bytes: Seq<u8>)
    ensures
        bytes.len() >= 8 && bytes[0] == 0x89 && bytes[1] == 0x50 && bytes[2] == 0x4e && bytes[3]
            == 0x47 && bytes[4] == 0x0d && bytes[5] == 0x0a && bytes[6] == 0x1a && bytes[7] == 0x0a
            <==> image_extension(bytes) == Some("png"@),
        bytes.len() >= 3 && bytes[0] == 0xff && bytes[1] == 0xd8 && bytes[2] == 0xff
            <==> image_extension(bytes) == Some("jpg"@),
        image_extension(bytes) matches Some(extension) ==> extension == "png"@ || extension
            == "jpg"@,
{
    reveal_strlit("png");
    reveal_strlit("jpg");
    assert("png"@[0] != "jpg"@[0]);
    lemma_starts_with(bytes, png_magic());
    lemma_starts_with(bytes, jpg_magic());
}

/// Bytes start with others exactly if each of these stands at its place.
pub proof fn lemma_starts_with(bytes: Seq<u8>, magic: Seq<u8>)
    ensures
        starts_with(bytes, magic) <==> magic.len() <= bytes.len() && forall|i: int|
            0 <= i < magic.len() ==> bytes[i] == magic[i],
{
    if magic.len() <= bytes.len() {
        let part = bytes.take(magic.len() as int);
        if starts_with(bytes, magic) {
            assert forall|i: int| 0 <= i < magic.len() implies bytes[i] == magic[i] by {
                assert(part[i] == magic[i]);
            }
        } else if forall|i: int| 0 <= i < magic.len() ==> bytes[i] == magic[i] {
            assert(part =~= magic);
        }
    }
}

/// Sound files are told by their marks: `fLaC`, `OggS`, `ID3` or the head of an MPEG frame, `RIFF`
/// with `WAVE` behind the length, and `ftyp` behind the length.
pub proof fn lemma_kind_of_a_sound(bytes: Seq<u8>)
    requires
        bytes.len() >= 12,
    ensures
        bytes[0] == 0x66 && bytes[1] == 0x4c && bytes[2] == 0x61 && bytes[3] == 0x43
            ==> audio_extension(bytes) == Some("flac"@),
        bytes[0] == 0x4f && bytes[1] == 0x67 && bytes[2] == 0x67 && bytes[3] == 0x53
            ==> audio_extension(bytes) == Some("ogg"@),
        bytes[0] == 0x49 && bytes[1] == 0x44 && bytes[2] == 0x33 ==> audio_extension(bytes) == Some(
            "mp3"@,
        ),
        bytes[0] == 0xff && bytes[1] >= 0xe0 ==> audio_extension(bytes) == Some("mp3"@),
        bytes[0] == 0x52 && bytes[1] == 0x49 && bytes[2] == 0x46 && bytes[3] == 0x46 && bytes[8]
            == 0x57 && bytes[9] == 0x41 && bytes[10] == 0x56 && bytes[11] == 0x45
            ==> audio_extension(bytes) == Some("wav"@),
        bytes[0] == 0 && bytes[4] == 0x66 && bytes[5] == 0x74 && bytes[6] == 0x79 && bytes[7]
            == 0x70 ==> audio_extension(bytes) == Some("m4a"@),
        bytes[0] == 0 && bytes[4] == 0 ==> audio_extension(bytes) is None,
{
    reveal_strlit("fLaC");
    reveal_strlit("OggS");
    reveal_strlit("ID3");
    reveal_strlit("RIFF");
    reveal_strlit("WAVE");
    reveal_strlit("ftyp");
    assert(ascii("fLaC"@) =~= seq![0x66u8, 0x4c, 0x61, 0x43]);
    assert(ascii("OggS"@) =~= seq![0x4fu8, 0x67, 0x67, 0x53]);
    assert(ascii("ID3"@) =~= seq![0x49u8, 0x44, 0x33]);
    assert(ascii("RIFF"@) =~= seq![0x52u8, 0x49, 0x46, 0x46]);
    assert(ascii("WAVE"@) =~= seq![0x57u8, 0x41, 0x56, 0x45]);
    assert(ascii("ftyp"@) =~= seq![0x66u8, 0x74, 0x79, 0x70]);
    lemma_starts_with(bytes, ascii("fLaC"@));
    lemma_starts_with(bytes, ascii("OggS"@));
    lemma_starts_with(bytes, ascii("ID3"@));
    lemma_starts_with(bytes, ascii("RIFF"@));
    lemma_starts_with(bytes.skip(8), ascii("WAVE"@));
    lemma_starts_with(bytes.skip(4), ascii("ftyp"@));
    assert(bytes.skip(8)[0] == bytes[8] && bytes.skip(8)[1] == bytes[9] && bytes.skip(8)[2]
        == bytes[10] && bytes.skip(8)[3] == bytes[11]);
    assert(bytes.skip(4)[0] == bytes[4] && bytes.skip(4)[1] == bytes[5] && bytes.skip(4)[2]
        == bytes[6] && bytes.skip(4)[3] == bytes[7]);
}

} // verus!
