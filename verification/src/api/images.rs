//! Fetching images. An image that several parts of the application want at the same time is
//! downloaded once: the first to claim it downloads it, the others wait and look again.
use vstd::prelude::*;

use crate::api::download::{jpg_magic, png_magic, starts_with};
use crate::api::{ApiError, NcmApi, NcmApiView};
use crate::text::{append_decimal, decimal, same_text, texts};

verus! {

/// The kinds of image files that are kept.
#[derive(Clone, Copy, Debug, PartialEq, Eq, Structural)]
pub enum ImageKind {
    Png,
    Jpg,
}

/// A step of fetching an image.
#[derive(Clone, Copy, Debug, PartialEq, Eq, Structural)]
pub enum ImageStep {
    /// Look whether there is a file of this kind.
    Look(ImageKind),
    /// Claim the download.
    Claim,
    /// Wait until the one who claimed the download has released it.
    Wait,
    /// Download the image, release the claim and take the outcome as the result.
    Download,
    /// The file of this kind is the result.
    Found(ImageKind),
}

/// An image that is wanted.
#[derive(Debug)]
pub struct ImageRequest {
    /// What tells this image from others that are wanted.
    pub key: String,
    /// Where the image comes from, in the wanted size.
    pub url: String,
    /// The names of the files that it may be kept in.
    pub png: String,
    pub jpg: String,
}

/// What tells a wanted image from others: the directory, the name and the size.
pub open spec fn inflight_key(
    dir: Seq<char>,
    unique_name: Seq<char>,
    width: u16,
    high: u16,
) -> Seq<char> {
    dir + "|"@ + unique_name + "|"@ + decimal(width as nat) + "|"@ + decimal(high as nat)
}

/// The address of an image in a given size.
pub open spec fn sized_url(url: Seq<char>, width: u16, high: u16) -> Seq<char> {
    url + "?param="@ + decimal(width as nat) + "y"@ + decimal(high as nat)
}

/// The name of a file: its stem, a dot and its extension.
pub open spec fn file_name(stem: Seq<char>, extension: Seq<char>) -> Seq<char> {
    stem + "."@ + extension
}

/// The name of a file that is still being written.
pub open spec fn temp_name(name: Seq<char>) -> Seq<char> {
    name + ".downloading"@
}

/// What follows a step, given the answer to the question that it asks. `Wait` asks nothing;
/// the last two have no successor.
pub open spec fn image_step_after(step: ImageStep, yes: bool) -> ImageStep {
    match step {
        ImageStep::Look(kind) => if yes {
            ImageStep::Found(kind)
        } else if kind == ImageKind::Png {
            ImageStep::Look(ImageKind::Jpg)
        } else {
            ImageStep::Claim
        },
        ImageStep::Claim => if yes {
            ImageStep::Download
        } else {
            ImageStep::Wait
        },
        ImageStep::Wait => ImageStep::Look(ImageKind::Png),
        ImageStep::Download => ImageStep::Download,
        ImageStep::Found(kind) => ImageStep::Found(kind),
    }
}

impl ImageStep {
    /// The first step: a PNG file is looked for first.
    pub fn first() -> (step: ImageStep)
        ensures
            step == ImageStep::Look(ImageKind::Png),
    {
        ImageStep::Look(ImageKind::Png)
    }

    /// The step that follows this one, given the answer to the question that it asks.
    pub fn after(self, yes: bool) -> (next: ImageStep)
        ensures
            next == image_step_after(self, yes),
    {
        match self {
            ImageStep::Look(kind) => {
                if yes {
                    ImageStep::Found(kind)
                } else if kind == ImageKind::Png {
                    ImageStep::Look(ImageKind::Jpg)
                } else {
                    ImageStep::Claim
                }
            },
            ImageStep::Claim => {
                if yes {
                    ImageStep::Download
                } else {
                    ImageStep::Wait
                }
            },
            ImageStep::Wait => ImageStep::Look(ImageKind::Png),
            ImageStep::Download => ImageStep::Download,
            ImageStep::Found(kind) => ImageStep::Found(kind),
        }
    }
}

impl ImageRequest {
    /// The name of the file that the downloaded image is kept in, which its first bytes decide.
    pub fn file_for(&self, bytes: &[u8]) -> (name: Result<String, ApiError>)
        ensures
            match name {
                Ok(name) => {
                    &&& starts_with(bytes@, png_magic()) ==> name@ == self.png@
                    &&& !starts_with(bytes@, png_magic()) ==> starts_with(bytes@, jpg_magic())
                        && name@ == self.jpg@
                },
                Err(error) => {
                    &&& !starts_with(bytes@, png_magic())
                    &&& !starts_with(bytes@, jpg_magic())
                    &&& error == ApiError::UnsupportedImage
                },
            },
    {
        match NcmApi::detect_image_extension(bytes) {
            Ok(extension) => {
                proof {
                    reveal_strlit("png");
                    reveal_strlit("jpg");
                    assert("png"@[0] != "jpg"@[0]);
                }
                if same_text(extension, "png") {
                    Ok(self.png.clone())
                } else {
                    Ok(self.jpg.clone())
                }
            },
            Err(error) => Err(error),
        }
    }
}

impl NcmApiView {
    /// The session once an image has been claimed.
    pub open spec fn claimed(self, key: Seq<char>) -> NcmApiView {
        NcmApiView { image_inflight: self.image_inflight.insert(key), ..self }
    }

    /// The session once the claim on an image has been released.
    pub open spec fn released(self, key: Seq<char>) -> NcmApiView {
        NcmApiView { image_inflight: self.image_inflight.remove(key), ..self }
    }
}

/// The name of a file from its stem and its extension.
pub(crate) fn join_name(stem: &str, extension: &str) -> (name: String)
    ensures
        name@ == file_name(stem@, extension@),
{
    let mut name = stem.to_string();
    name.append(".");
    name.append(extension);
    name
}

/// The name that a file has while it is being written.
pub fn downloading_name(name: &str) -> (temp: String)
    ensures
        temp@ == temp_name(name@),
{
    let mut temp = name.to_string();
    temp.append(".downloading");
    temp
}

fn position_of_key(keys: &Vec<String>, key: &str) -> (position: Option<usize>)
    ensures
        match position {
            Some(position) => position < keys@.len() && texts(keys@)[position as int] == key@,
            None => !texts(keys@).contains(key@),
        },
{
    let mut i: usize = 0;
    while i < keys.len()
        invariant
            i <= keys.len(),
            forall|j: int| 0 <= j < i ==> #[trigger] texts(keys@)[j] != key@,
        decreases keys.len() - i,
    {
        if same_text(keys[i].as_str(), key) {
            return Some(i);
        }
        i += 1;
    }
    None
}

impl NcmApi {
    /// Describes an image that is wanted in a directory.
    pub fn get_image(
        unique_name: &str,
        url: &str,
        dir: &str,
        width: u16,
        high: u16,
    ) -> (request: ImageRequest)
        ensures
            request.key@ == inflight_key(dir@, unique_name@, width, high),
            request.url@ == sized_url(url@, width, high),
            request.png@ == file_name(unique_name@, "png"@),
            request.jpg@ == file_name(unique_name@, "jpg"@),
    {
        let mut key = dir.to_string();
        key.append("|");
        key.append(unique_name);
        key.append("|");
        append_decimal(&mut key, width as u64);
        key.append("|");
        append_decimal(&mut key, high as u64);
        let mut sized = url.to_string();
        sized.append("?param=");
        append_decimal(&mut sized, width as u64);
        sized.append("y");
        append_decimal(&mut sized, high as u64);
        ImageRequest {
            key,
            url: sized,
            png: join_name(unique_name, "png"),
            jpg: join_name(unique_name, "jpg"),
        }
    }

    /// Claims the download of an image, unless it is being downloaded already.
    pub fn claim_image(&mut self, key: &str) -> (claimed: bool)
        ensures
            claimed == !old(self)@.image_inflight.contains(key@),
            final(self)@ == old(self)@.claimed(key@),
    {
        proof {
            use_type_invariant(&*self);
        }
        let ghost before = texts(self.image_inflight@);
        if position_of_key(&self.image_inflight, key).is_some() {
            assert(before.contains(key@));
            assert(before.to_set().insert(key@) =~= before.to_set());
            return false;
        }
        let mut keys: Vec<String> = Vec::new();
        std::mem::swap(&mut keys, &mut self.image_inflight);
        keys.push(key.to_string());
        proof {
            assert(texts(keys@) =~= before.push(key@));
            vstd::seq_lib::seq_to_set_is_finite(before);
            assert forall|text: Seq<char>|
                before.push(key@).to_set().contains(text) <==> before.to_set().insert(
                    key@,
                ).contains(text) by {
                if before.contains(text) {
                    let i = choose|i: int| 0 <= i < before.len() && before[i] == text;
                    assert(before.push(key@)[i] == text);
                }
                assert(before.push(key@).last() == key@);
            }
            assert(before.push(key@).to_set() =~= before.to_set().insert(key@));
        }
        self.image_inflight = keys;
        true
    }

    /// Releases the claim on an image.
    pub fn release_image(&mut self, key: &str)
        ensures
            final(self)@ == old(self)@.released(key@),
    {
        proof {
            use_type_invariant(&*self);
        }
        let ghost before = texts(self.image_inflight@);
        match position_of_key(&self.image_inflight, key) {
            Some(position) => {
                let mut keys: Vec<String> = Vec::new();
                std::mem::swap(&mut keys, &mut self.image_inflight);
                keys.remove(position);
                proof {
                    let after = texts(keys@);
                    assert(after =~= before.remove(position as int));
                    assert forall|text: Seq<char>|
                        after.to_set().contains(text) <==> before.to_set().remove(
                            key@,
                        ).contains(text) by {
                        if after.contains(text) {
                            let i = choose|i: int| 0 <= i < after.len() && after[i] == text;
                            assert(before[if i < position {
                                i
                            } else {
                                i + 1
                            }] == text);
                        }
                        if before.contains(text) && text != key@ {
                            let i = choose|i: int| 0 <= i < before.len() && before[i] == text;
                            assert(after[if i < position {
                                i
                            } else {
                                i - 1
                            }] == text);
                        }
                    }
                    assert(after.to_set() =~= before.to_set().remove(key@));
                    assert(after.no_duplicates());
                }
                self.image_inflight = keys;
            },
            None => {
                assert(before.to_set().remove(key@) =~= before.to_set());
            },
        }
    }
}

/// While an image is claimed nobody else can claim it, claims on other images change nothing
/// of that, and once it has been released it can be claimed again.
pub proof fn lemma_claims_are_exclusive(api: NcmApiView, key: Seq<char>, other: Seq<char>)
    requires
        key != other,
    ensures
        api.claimed(key).image_inflight.contains(key),
        api.claimed(key).claimed(other).image_inflight.contains(key),
        api.claimed(key).released(other).image_inflight.contains(key),
        !api.claimed(key).released(key).image_inflight.contains(key),
        !api.image_inflight.contains(key) ==> api.claimed(key).released(key) == api,
{
    if !api.image_inflight.contains(key) {
        assert(api.claimed(key).released(key).image_inflight =~= api.image_inflight);
    }
}

/// A file that is already there is found without a download, the PNG file before the JPEG file.
pub proof fn lemma_cached_image_is_found(png: bool, jpg: bool)
    ensures
        ({
            let first = image_step_after(ImageStep::Look(ImageKind::Png), png);
            let second = image_step_after(first, jpg);
            &&& png ==> first == ImageStep::Found(ImageKind::Png)
            &&& !png && jpg ==> second == ImageStep::Found(ImageKind::Jpg)
            &&& !png && !jpg ==> second == ImageStep::Claim
        }),
{
}

/// Who asks for the claim on an image downloads it if they get it, and otherwise waits and looks
/// for the file again; nobody downloads without the claim.
pub proof fn lemma_only_the_claimer_downloads(step: ImageStep, yes: bool)
    ensures
        image_step_after(ImageStep::Claim, true) == ImageStep::Download,
        image_step_after(ImageStep::Claim, false) == ImageStep::Wait,
        image_step_after(ImageStep::Wait, yes) == ImageStep::Look(ImageKind::Png),
        image_step_after(step, yes) == ImageStep::Download && step != ImageStep::Download ==> step
            == ImageStep::Claim && yes,
        forall|kind: ImageKind|
            image_step_after(step, yes) == ImageStep::Found(kind) && !(step is Found) ==> step
                == ImageStep::Look(kind) && yes,
{
}

/// What makes up the texts of an image: the address asks for the size, the names of the files are
/// that of the image with an extension, and the key tells directory, name and size apart.
pub proof fn lemma_texts_of_an_image(
    dir: Seq<char>,
    name: Seq<char>,
    url: Seq<char>,
    width: u16,
    high: u16,
)
    ensures
        sized_url(url, width, high) == url + "?param="@ + decimal(width as nat) + "y"@ + decimal(
            high as nat,
        ),
        inflight_key(dir, name, width, high) == dir + "|"@ + name + "|"@ + decimal(width as nat)
            + "|"@ + decimal(high as nat),
        file_name(name, "png"@) == name + ".png"@,
        file_name(name, "jpg"@) == name + ".jpg"@,
        temp_name(name) == name + ".downloading"@,
{
    reveal_strlit(".");
    reveal_strlit("png");
    reveal_strlit("jpg");
    reveal_strlit(".png");
    reveal_strlit(".jpg");
    assert(file_name(name, "png"@) =~= name + ".png"@);
    assert(file_name(name, "jpg"@) =~= name + ".jpg"@);
}

} // verus!
