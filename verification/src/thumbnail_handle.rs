//! Thumbnails of a package: their bytes and image format.

use vstd::prelude::*;

use crate::text::{ascii_lower, ascii_lower_eq};

verus! {

/// The format of a thumbnail image, taken from its file extension.
#[derive(Debug, Clone, PartialEq, Eq)]
pub enum ImageFormat {
    Png,
    Jpeg,
    Unknown(String),
}

/// The format of an image named with extension `ext`, compared case-insensitively.
///
/// The extensions recognised are all ASCII, and no non-ASCII character lower-cases to
/// one of their letters, so lower-casing ASCII letters alone decides the same way as
/// full Unicode lower-casing.
pub open spec fn format_of_ext(ext: Seq<char>) -> ImageFormatSpec {
    if ascii_lower(ext) == "png"@ {
        ImageFormatSpec::Png
    } else if ascii_lower(ext) == "jpg"@ || ascii_lower(ext) == "jpeg"@ {
        ImageFormatSpec::Jpeg
    } else {
        ImageFormatSpec::Unknown(ext)
    }
}

/// An image format with its unknown extension given by its characters.
pub enum ImageFormatSpec {
    Png,
    Jpeg,
    Unknown(Seq<char>),
}

/// The extension that names a format.
pub open spec fn format_name(f: ImageFormatSpec) -> Seq<char> {
    match f {
        ImageFormatSpec::Png => "png"@,
        ImageFormatSpec::Jpeg => "jpeg"@,
        ImageFormatSpec::Unknown(e) => e,
    }
}

impl View for ImageFormat {
    type V = ImageFormatSpec;

    open spec fn view(&self) -> ImageFormatSpec {
        match self {
            ImageFormat::Png => ImageFormatSpec::Png,
            ImageFormat::Jpeg => ImageFormatSpec::Jpeg,
            ImageFormat::Unknown(e) => ImageFormatSpec::Unknown(e@),
        }
    }
}

impl ImageFormat {
    /// The format named by the file extension `ext`: `png` gives [`ImageFormat::Png`],
    /// `jpg` and `jpeg` give [`ImageFormat::Jpeg`], in any case; any other extension is
    /// kept as it was written.
    pub fn from_ext(ext: &str) -> (r: Self)
        ensures
            r@ == format_of_ext(ext@),
    {
        if ascii_lower_eq(ext, "png") {
            ImageFormat::Png
        } else if ascii_lower_eq(ext, "jpg") || ascii_lower_eq(ext, "jpeg") {
            ImageFormat::Jpeg
        } else {
            ImageFormat::Unknown(ext.to_owned())
        }
    }

    /// The extension that names this format.
    pub fn as_str(&self) -> (r: &str)
        ensures
            r@ == format_name(self@),
    {
        match self {
            ImageFormat::Png => "png",
            ImageFormat::Jpeg => "jpeg",
            ImageFormat::Unknown(ext) => ext.as_str(),
        }
    }
}

/// A thumbnail: the image bytes and their format.
#[derive(Debug, Clone, PartialEq, Eq)]
pub struct ThumbnailHandle {
    pub data: Vec<u8>,
    pub format: ImageFormat,
}

} // verus!
