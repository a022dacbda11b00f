//! The record kept for each image file, and the dataset split it belongs to.
use vstd::prelude::*;

verus! {

/// Dataset partition of a file, inferred from its directory.
#[derive(Debug, Clone, Copy, PartialEq, Eq)]
pub enum Split {
    Train,
    Val,
    Test,
    Unknown,
}

/// The text stored for a split.
pub open spec fn split_name(s: Split) -> Seq<char> {
    match s {
        Split::Train => "train"@,
        Split::Val => "val"@,
        Split::Test => "test"@,
        Split::Unknown => "unknown"@,
    }
}

impl Split {
    /// The text stored for this split.
    pub fn as_str(&self) -> (r: &'static str)
        ensures
            r@ == split_name(*self),
    {
        match self {
            Split::Train => "train",
            Split::Val => "val",
            Split::Test => "test",
            Split::Unknown => "unknown",
        }
    }
}

/// One row of the image table.
#[derive(Debug)]
pub struct Image {
    /// Identifier given by the store; `None` before the row is stored.
    pub id: Option<i64>,
    /// File name without its extension.
    pub name: String,
    /// File name with its extension.
    pub filename: String,
    /// Lower-cased extension, when the path has one.
    pub extension: Option<String>,
    /// Directory of the file relative to the dataset root.
    pub relative_path: String,
    pub split: Split,
    /// Dimensions and channel count; `None` when the bytes do not decode.
    pub width: Option<u32>,
    pub height: Option<u32>,
    pub channels: Option<u32>,
    /// Length of the file in bytes.
    pub file_size: u64,
    /// Hexadecimal content hash of the file's bytes.
    pub file_hash: String,
    /// True iff the bytes could not be decoded as an image.
    pub is_corrupted: bool,
}

/// The text of an optional string.
pub open spec fn opt_view(o: Option<String>) -> Option<Seq<char>> {
    match o {
        Some(s) => Some(s@),
        None => None,
    }
}

fn copy_opt_string(o: &Option<String>) -> (r: Option<String>)
    ensures
        r == *o,
{
    match o {
        Some(s) => Some(s.clone()),
        None => None,
    }
}

impl Image {
    /// A field-by-field copy of the record.
    pub fn duplicate(&self) -> (r: Image)
        ensures
            r == *self,
    {
        Image {
            id: self.id,
            name: self.name.clone(),
            filename: self.filename.clone(),
            extension: copy_opt_string(&self.extension),
            relative_path: self.relative_path.clone(),
            split: self.split,
            width: self.width,
            height: self.height,
            channels: self.channels,
            file_size: self.file_size,
            file_hash: self.file_hash.clone(),
            is_corrupted: self.is_corrupted,
        }
    }
}

} // verus!
