//! Selection of candidate files and the per-file metadata record.
use crate::errors::{DatalintError, DatalintResult};
use crate::hashing::{content_hash, content_hash_of};
use crate::models::{opt_view, Image, Split};
use crate::paths::{
    extension_of, file_name_of, file_stem_of, lower_of, lowercase, path_extension,
    path_file_name, path_file_stem, relative_dir, relative_dir_of,
};
use vstd::prelude::*;

verus! {

/// What decoding reveals of an image: its size and its colour model.
#[derive(Debug, Clone, Copy, PartialEq, Eq)]
pub struct DecodedImage {
    pub width: u32,
    pub height: u32,
    /// False for grayscale models.
    pub has_color: bool,
    /// True for models with an alpha channel.
    pub has_alpha: bool,
}

/// What `image::load_from_memory` makes of a byte buffer: `None` when it fails.
pub uninterp spec fn decode_of(data: Seq<u8>) -> Option<DecodedImage>;

/// Relies on `image::load_from_memory` to guess the format and decode the
/// bytes, and on `ColorType::has_color` / `has_alpha` to describe the result.
#[verifier::external_body]
fn decode_image(data: &Vec<u8>) -> (r: Option<DecodedImage>)
    ensures
        r == decode_of(data@),
{
    image::load_from_memory(data).ok().map(|img| DecodedImage {
        width: img.width(),
        height: img.height(),
        has_color: img.color().has_color(),
        has_alpha: img.color().has_alpha(),
    })
}

/// Relies on `str::chars`: the characters of the string, in order.
#[verifier::external_body]
fn chars_of(s: &str) -> (r: Vec<char>)
    ensures
        r@ == s@,
{
    s.chars().collect()
}

/// Channel count of a colour model: 1 for grayscale, 4 with alpha, else 3.
pub open spec fn channels_of(d: DecodedImage) -> u32 {
    if !d.has_color {
        1
    } else if d.has_alpha {
        4
    } else {
        3
    }
}

/// Channel count of a decoded image (see `channels_of`).
pub fn channel_count(d: DecodedImage) -> (r: u32)
    ensures
        r == channels_of(d),
{
    if !d.has_color {
        1
    } else if d.has_alpha {
        4
    } else {
        3
    }
}

/// `t` occurs in `s` at position `i`.
pub open spec fn occurs_at(s: Seq<char>, t: Seq<char>, i: int) -> bool {
    0 <= i && i + t.len() <= s.len() && s.subrange(i, i + t.len()) == t
}

/// `t` occurs somewhere in `s`.
pub open spec fn contains_text(s: Seq<char>, t: Seq<char>) -> bool {
    exists|i: int| occurs_at(s, t, i)
}

/// True iff `t` occurs in `s`.
pub fn contains_chars(s: &Vec<char>, t: &Vec<char>) -> (r: bool)
    ensures
        r == contains_text(s@, t@),
{
    let n = s.len();
    let m = t.len();
    if m > n {
        return false;
    }
    let mut i: usize = 0;
    while i <= n - m
        invariant
            n == s@.len(),
            m == t@.len(),
            m <= n,
            i <= n - m + 1,
            forall|k: int| 0 <= k < i ==> !occurs_at(s@, t@, k),
        decreases n - m + 1 - i,
    {
        let mut j: usize = 0;
        let mut same = true;
        while j < m
            invariant
                n == s@.len(),
                m == t@.len(),
                i + m <= n,
                j <= m,
                same == forall|l: int| 0 <= l < j ==> s@[i + l] == t@[l],
            decreases m - j,
        {
            if s[i + j] != t[j] {
                same = false;
            }
            j = j + 1;
        }
        if same {
            assert(s@.subrange(i as int, i + m) =~= t@);
            assert(occurs_at(s@, t@, i as int));
            return true;
        }
        assert(!occurs_at(s@, t@, i as int)) by {
            if s@.subrange(i as int, i + m) == t@ {
                assert forall|l: int| 0 <= l < m implies s@[i + l] == t@[l] by {
                    assert(s@.subrange(i as int, i + m)[l] == s@[i + l]);
                }
            }
        }
        i = i + 1;
    }
    false
}

/// The split named by a lower-cased path: the one of `train`, `val`, `test`
/// that occurs in it when exactly one does, else `Unknown`.
pub open spec fn split_of_lower(s: Seq<char>) -> Split {
    let tr = contains_text(s, "train"@);
    let va = contains_text(s, "val"@);
    let te = contains_text(s, "test"@);
    if tr && !va && !te {
        Split::Train
    } else if !tr && va && !te {
        Split::Val
    } else if !tr && !va && te {
        Split::Test
    } else {
        Split::Unknown
    }
}

/// The split named by an already lower-cased relative path.
pub fn split_of_lowered(lowered: &str) -> (r: Split)
    ensures
        r == split_of_lower(lowered@),
{
    let s = chars_of(lowered);
    let tr = contains_chars(&s, &chars_of("train"));
    let va = contains_chars(&s, &chars_of("val"));
    let te = contains_chars(&s, &chars_of("test"));
    if tr && !va && !te {
        Split::Train
    } else if !tr && va && !te {
        Split::Val
    } else if !tr && !va && te {
        Split::Test
    } else {
        Split::Unknown
    }
}

/// The split of a relative path, compared without regard to case: exactly
/// one of `train`, `val`, `test` in it gives that split; none or several give
/// `Unknown`.
pub fn infer_split(relative_path: &str) -> (r: Split)
    ensures
        r == split_of_lower(lower_of(relative_path@)),
        contains_text(lower_of(relative_path@), "train"@)
            && !contains_text(lower_of(relative_path@), "val"@)
            && !contains_text(lower_of(relative_path@), "test"@) ==> r == Split::Train,
        !contains_text(lower_of(relative_path@), "train"@)
            && contains_text(lower_of(relative_path@), "val"@)
            && !contains_text(lower_of(relative_path@), "test"@) ==> r == Split::Val,
        !contains_text(lower_of(relative_path@), "train"@)
            && !contains_text(lower_of(relative_path@), "val"@)
            && contains_text(lower_of(relative_path@), "test"@) ==> r == Split::Test,
        !contains_text(lower_of(relative_path@), "train"@)
            && !contains_text(lower_of(relative_path@), "val"@)
            && !contains_text(lower_of(relative_path@), "test"@) ==> r == Split::Unknown,
{
    let lowered = lowercase(relative_path);
    split_of_lowered(lowered.as_str())
}

/// The extensions recognised as images, in lower case.
pub open spec fn image_extensions() -> Seq<Seq<char>> {
    seq!["jpg"@, "jpeg"@, "png"@, "bmp"@, "gif"@, "webp"@, "tiff"@, "tif"@, "ico"@, "svg"@]
}

/// The texts of a list of strings.
pub open spec fn texts(v: Seq<String>) -> Seq<Seq<char>> {
    v.map_values(|s: String| s@)
}

/// The recognised image extensions, as a list that callers may extend.
pub fn image_extension_list() -> (r: Vec<String>)
    ensures
        texts(r@) == image_extensions(),
{
    let mut v: Vec<String> = Vec::new();
    v.push(String::from_str("jpg"));
    v.push(String::from_str("jpeg"));
    v.push(String::from_str("png"));
    v.push(String::from_str("bmp"));
    v.push(String::from_str("gif"));
    v.push(String::from_str("webp"));
    v.push(String::from_str("tiff"));
    v.push(String::from_str("tif"));
    v.push(String::from_str("ico"));
    v.push(String::from_str("svg"));
    assert(texts(v@) =~= image_extensions());
    v
}

/// A path passes the filter when it has an extension whose lower-cased text
/// is in `allowed`.
pub open spec fn has_allowed_extension(p: Seq<char>, allowed: Seq<Seq<char>>) -> bool {
    match extension_of(p) {
        Some(e) => allowed.contains(lower_of(e)),
        None => false,
    }
}

/// True iff the path's extension, case-folded, is one of `allowed`.
pub fn has_extension_in(path: &str, allowed: &Vec<String>) -> (r: bool)
    ensures
        r == has_allowed_extension(path@, texts(allowed@)),
{
    match path_extension(path) {
        Some(e) => {
            let lowered = lowercase(e.as_str());
            let mut i: usize = 0;
            while i < allowed.len()
                invariant
                    i <= allowed@.len(),
                    lowered@ == lower_of(e@),
                    extension_of(path@) == Some(e@),
                    forall|k: int| 0 <= k < i ==> allowed@[k]@ != lowered@,
                decreases allowed@.len() - i,
            {
                if allowed[i] == lowered {
                    assert(texts(allowed@)[i as int] == lowered@);
                    assert(texts(allowed@).contains(lowered@));
                    return true;
                }
                i = i + 1;
            }
            assert(!texts(allowed@).contains(lowered@)) by {
                if texts(allowed@).contains(lowered@) {
                    let k = choose|k: int| 0 <= k < texts(allowed@).len() && texts(allowed@)[k] == lowered@;
                    assert(allowed@[k]@ == lowered@);
                }
            }
            false
        },
        None => false,
    }
}

/// True iff the path has a recognised image extension, in any case.
pub fn is_image_file(path: &str) -> (r: bool)
    ensures
        r == has_allowed_extension(path@, image_extensions()),
{
    let allowed = image_extension_list();
    has_extension_in(path, &allowed)
}

/// The paths of `paths` that pass the filter, in their order.
pub open spec fn select_spec(paths: Seq<String>, allowed: Seq<Seq<char>>) -> Seq<String>
    decreases paths.len(),
{
    if paths.len() == 0 {
        Seq::empty()
    } else if has_allowed_extension(paths.last()@, allowed) {
        select_spec(paths.drop_last(), allowed).push(paths.last())
    } else {
        select_spec(paths.drop_last(), allowed)
    }
}

/// The candidate image files among the regular files found under a root.
pub fn select_image_paths(paths: &Vec<String>) -> (r: Vec<String>)
    ensures
        r@ == select_spec(paths@, image_extensions()),
{
    let mut r: Vec<String> = Vec::new();
    let mut i: usize = 0;
    while i < paths.len()
        invariant
            i <= paths@.len(),
            r@ == select_spec(paths@.subrange(0, i as int), image_extensions()),
        decreases paths@.len() - i,
    {
        assert(paths@.subrange(0, i + 1).drop_last() =~= paths@.subrange(0, i as int));
        if is_image_file(paths[i].as_str()) {
            r.push(paths[i].clone());
        }
        i = i + 1;
    }
    assert(paths@.subrange(0, paths@.len() as int) =~= paths@);
    r
}

/// The lower-cased extension of a path, when it has one.
pub open spec fn lower_extension_of(p: Seq<char>) -> Option<Seq<char>> {
    match extension_of(p) {
        Some(e) => Some(lower_of(e)),
        None => None,
    }
}

/// The record fields that decoding decides: width, height and channels.
pub open spec fn decoded_width(d: Option<DecodedImage>) -> Option<u32> {
    match d {
        Some(x) => Some(x.width),
        None => None,
    }
}

pub open spec fn decoded_height(d: Option<DecodedImage>) -> Option<u32> {
    match d {
        Some(x) => Some(x.height),
        None => None,
    }
}

pub open spec fn decoded_channels(d: Option<DecodedImage>) -> Option<u32> {
    match d {
        Some(x) => Some(channels_of(x)),
        None => None,
    }
}

/// `img` is the record of the file at `path` under `root`, of `size` bytes
/// holding `data`.
pub open spec fn is_record_of(img: Image, path: Seq<char>, root: Seq<char>, size: u64, data: Seq<u8>) -> bool {
    let rel = relative_dir_of(path, root);
    &&& img.id.is_none()
    &&& file_name_of(path) == Some(img.filename@)
    &&& file_stem_of(path) == Some(img.name@)
    &&& opt_view(img.extension) == lower_extension_of(path)
    &&& img.relative_path@ == rel
    &&& img.split == split_of_lower(lower_of(rel))
    &&& img.width == decoded_width(decode_of(data))
    &&& img.height == decoded_height(decode_of(data))
    &&& img.channels == decoded_channels(decode_of(data))
    &&& img.file_size == size
    &&& img.file_hash@ == content_hash_of(data)
    &&& img.is_corrupted == decode_of(data).is_none()
}

/// A file can be recorded when its path has a file name and a stem.
pub open spec fn is_recordable(path: Seq<char>) -> bool {
    file_name_of(path).is_some() && file_stem_of(path).is_some()
}

/// Builds the record of one file from its path, the dataset root, its size
/// and its bytes. Bytes that do not decode still give a record, marked
/// corrupted and without dimensions; a path without a file name or stem is
/// refused.
pub fn process_image(path: &str, dataset_root: &str, file_size: u64, data: &Vec<u8>) -> (r: DatalintResult<Image>)
    ensures
        r.is_ok() == is_recordable(path@),
        !is_recordable(path@) ==> r matches Err(DatalintError::Core(_)),
        r matches Ok(img) ==> is_record_of(img, path@, dataset_root@, file_size, data@),
        r matches Ok(img) ==> (decode_of(data@).is_none() ==> img.is_corrupted && img.width.is_none()
            && img.height.is_none() && img.channels.is_none()),
{
    let relative_path = relative_dir(path, dataset_root);
    let filename = match path_file_name(path) {
        Some(f) => f,
        None => {
            return Err(DatalintError::Core(String::from_str("Invalid filename")));
        },
    };
    let name = match path_file_stem(path) {
        Some(n) => n,
        None => {
            return Err(DatalintError::Core(String::from_str("Invalid filename stem")));
        },
    };
    let file_hash = content_hash(data);
    let extension = match path_extension(path) {
        Some(e) => Some(lowercase(e.as_str())),
        None => None,
    };
    let (width, height, channels, is_corrupted) = match decode_image(data) {
        Some(d) => (Some(d.width), Some(d.height), Some(channel_count(d)), false),
        None => (None, None, None, true),
    };
    let split = infer_split(relative_path.as_str());
    Ok(Image {
        id: None,
        name,
        filename,
        extension,
        relative_path,
        split,
        width,
        height,
        channels,
        file_size,
        file_hash,
        is_corrupted,
    })
}

/// The records among per-file outcomes, in order; failed files are left out.
pub open spec fn records_of(outcomes: Seq<DatalintResult<Image>>) -> Seq<Image>
    decreases outcomes.len(),
{
    if outcomes.len() == 0 {
        Seq::empty()
    } else {
        match outcomes.last() {
            Ok(img) => records_of(outcomes.drop_last()).push(img),
            Err(_) => records_of(outcomes.drop_last()),
        }
    }
}

/// Finishes a scan: a missing dataset root is `NotFound`; otherwise the
/// records of the files that could be processed, in order, the others left out.
pub fn scan_images(dataset_path: &str, dataset_exists: bool, outcomes: &Vec<DatalintResult<Image>>) -> (r: DatalintResult<Vec<Image>>)
    ensures
        !dataset_exists ==> (r matches Err(DatalintError::NotFound(m)) && m@ == dataset_path@),
        dataset_exists ==> (r matches Ok(v) && v@ == records_of(outcomes@)),
{
    if !dataset_exists {
        return Err(DatalintError::NotFound(dataset_path.to_owned()));
    }
    let mut v: Vec<Image> = Vec::new();
    let mut i: usize = 0;
    while i < outcomes.len()
        invariant
            i <= outcomes@.len(),
            v@ == records_of(outcomes@.subrange(0, i as int)),
        decreases outcomes@.len() - i,
    {
        assert(outcomes@.subrange(0, i + 1).drop_last() =~= outcomes@.subrange(0, i as int));
        match &outcomes[i] {
            Ok(img) => v.push(img.duplicate()),
            Err(_) => {},
        }
        i = i + 1;
    }
    assert(outcomes@.subrange(0, outcomes@.len() as int) =~= outcomes@);
    Ok(v)
}

/// Two files with the same bytes get the same content hash, whatever their
/// names, extensions or directories; they also decode alike.
pub proof fn lemma_content_addressing(
    a: Image,
    b: Image,
    path_a: Seq<char>,
    path_b: Seq<char>,
    root_a: Seq<char>,
    root_b: Seq<char>,
    size_a: u64,
    size_b: u64,
    data: Seq<u8>,
)
    requires
        is_record_of(a, path_a, root_a, size_a, data),
        is_record_of(b, path_b, root_b, size_b, data),
    ensures
        a.file_hash@ == b.file_hash@,
        a.is_corrupted == b.is_corrupted,
        a.width == b.width && a.height == b.height && a.channels == b.channels,
{
}

/// A file whose bytes do not decode is recorded as corrupted, without width,
/// height or channel count.
pub proof fn lemma_corruption_detection(img: Image, path: Seq<char>, root: Seq<char>, size: u64, data: Seq<u8>)
    requires
        is_record_of(img, path, root, size, data),
        decode_of(data).is_none(),
    ensures
        img.is_corrupted,
        img.width.is_none() && img.height.is_none() && img.channels.is_none(),
{
}

} // verus!
