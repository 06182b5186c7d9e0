//! Image formats and processing: the versions an uploaded image is stored in.

use vstd::prelude::*;

use crate::text::{
    ascii_lowercase, contains_char, last_segment, last_segment_of, lemma_ascii_lowercase_contains,
    lemma_last_segment_ascii, lemma_last_segment_ascii_lowercase, lowercase, text_eq,
    to_lowercase,
};

verus! {

/// Supported image formats for storage and processing.
#[derive(Debug, Clone, Copy, PartialEq, Eq)]
pub enum ImageFormat {
    /// PNG image format.
    Png,
    /// SVG image format.
    Svg,
}

/// Error returned when a text names no supported image format.
#[derive(Debug, Clone, Copy, PartialEq, Eq)]
pub struct InvalidImageFormat;

impl InvalidImageFormat {
    /// The error message.
    pub fn message(&self) -> (m: &'static str)
        ensures
            m@ == "invalid image format"@,
    {
        "invalid image format"
    }
}

/// The lowercase name of a format, as stored in the database.
pub open spec fn format_name(format: ImageFormat) -> Seq<char> {
    match format {
        ImageFormat::Png => "png"@,
        ImageFormat::Svg => "svg"@,
    }
}

/// The MIME type an image in a format is served with.
pub open spec fn format_content_type(format: ImageFormat) -> Seq<char> {
    match format {
        ImageFormat::Png => "image/png"@,
        ImageFormat::Svg => "image/svg+xml"@,
    }
}

/// Each format is stored under a name of its own, so reading back a stored
/// name gives the format that was stored.
pub proof fn law_format_names_distinct(a: ImageFormat, b: ImageFormat)
    ensures
        format_name(a) == format_name(b) ==> a == b,
{
    reveal_strlit("png");
    reveal_strlit("svg");
    if format_name(a) == format_name(b) && a != b {
        assert(format_name(a)[0] == format_name(b)[0]);
    }
}

impl ImageFormat {
    /// Parses a stored format name: `"png"` or `"svg"`, nothing else.
    pub fn try_from(value: &str) -> (r: Result<Self, InvalidImageFormat>)
        ensures
            r matches Ok(f) ==> format_name(f) == value@,
            r is Err <==> value@ != "png"@ && value@ != "svg"@,
    {
        if text_eq(value, "png") {
            Ok(ImageFormat::Png)
        } else if text_eq(value, "svg") {
            Ok(ImageFormat::Svg)
        } else {
            Err(InvalidImageFormat)
        }
    }

    /// The lowercase name of the format.
    pub fn as_str(&self) -> (s: &'static str)
        ensures
            s@ == format_name(*self),
    {
        match self {
            ImageFormat::Png => "png",
            ImageFormat::Svg => "svg",
        }
    }

    /// The MIME type an image in this format is served with.
    pub fn content_type(&self) -> (s: &'static str)
        ensures
            s@ == format_content_type(*self),
    {
        match self {
            ImageFormat::Png => "image/png",
            ImageFormat::Svg => "image/svg+xml",
        }
    }
}

/// A file name has an SVG extension: it has a `.`, and the text after its
/// last `.`, lowercased, is `svg`.
pub open spec fn svg_file_name(file_name: Seq<char>) -> bool {
    file_name.contains('.') && lowercase(ascii_lowercase(last_segment(file_name, '.'))) == "svg"@
}

/// On ASCII names: the name has a `.` and the text after its last `.` is
/// `svg` once its letters are lowercased.
pub open spec fn svg_extension_ascii(file_name: Seq<char>) -> bool {
    file_name.contains('.') && ascii_lowercase(last_segment(file_name, '.')) == "svg"@
}

/// Returns true if the file name has an SVG extension (case-insensitive): it
/// has a `.` and the text after the last `.` lowercases to `svg`. A name
/// without a `.` has no extension.
pub fn is_svg(file_name: &str) -> (r: bool)
    ensures
        r == (file_name@.contains('.') && lowercase(last_segment(file_name@, '.')) == "svg"@),
        r == svg_file_name(file_name@),
        vstd::utf8::is_ascii_chars(file_name@) ==> r == svg_extension_ascii(file_name@),
{
    if !contains_char(file_name, '.') {
        return false;
    }
    let extension = last_segment_of(file_name, '.');
    proof {
        if vstd::utf8::is_ascii_chars(file_name@) {
            lemma_last_segment_ascii(file_name@, '.');
        }
    }
    let lower = to_lowercase(extension);
    text_eq(lower.as_str(), "svg")
}

/// Whether a file is taken for an SVG image does not depend on the case of
/// the letters in its name: two names that differ only in the case of ASCII
/// letters are both SVG file names or neither is.
pub proof fn law_svg_ignores_letter_case(a: Seq<char>, b: Seq<char>)
    requires
        ascii_lowercase(a) == ascii_lowercase(b),
    ensures
        svg_file_name(a) == svg_file_name(b),
        svg_extension_ascii(a) == svg_extension_ascii(b),
{
    lemma_ascii_lowercase_contains(a, '.');
    lemma_ascii_lowercase_contains(b, '.');
    lemma_last_segment_ascii_lowercase(a, '.');
    lemma_last_segment_ascii_lowercase(b, '.');
}

/// Represents a version of an image of a specific size (or format).
#[derive(Debug, Clone)]
pub struct ImageVersion {
    /// Raw image data in the specified format.
    pub data: Vec<u8>,
    /// Version label, e.g., "small", "medium", or "large".
    pub version: String,
}

/// Label of the `i`-th resized version.
pub open spec fn version_label(i: int) -> Seq<char> {
    if i == 0 {
        "small"@
    } else if i == 1 {
        "medium"@
    } else {
        "large"@
    }
}

/// Declares `image::ImageError` to the verifier.
#[verifier::external_type_specification]
#[verifier::external_body]
pub struct ExImageError(image::ImageError);

/// Whether `image::load_from_memory` decodes these bytes (guessing the format
/// from their content).
pub uninterp spec fn image_decodes(data: Seq<u8>) -> bool;

/// The width and height of the image `image::load_from_memory` decodes from
/// these bytes.
pub uninterp spec fn image_dimensions(data: Seq<u8>) -> (u32, u32);

/// The width and height recorded in a PNG file's header.
pub uninterp spec fn png_dimensions(png: Seq<u8>) -> (u32, u32);

/// The width and height `DynamicImage::resize(size, size, ..)` gives an image
/// of `width` x `height` pixels (the `image` crate's `resize_dimensions`,
/// which keeps the aspect ratio, rounding each side).
pub uninterp spec fn fitted(width: u32, height: u32, size: u32) -> (u32, u32);

/// Calls the `image` crate's pipeline on the bytes of an uploaded image:
/// `image::load_from_memory` (which guesses the format and decodes),
/// `DynamicImage::resize(size, size, Lanczos3)` and `DynamicImage::write_to`
/// with the PNG format into a fresh buffer. Claims:
/// - it succeeds exactly when the bytes decode: with the formats enabled
///   here (PNG, JPEG, GIF, WebP) every decoded image has a color type the PNG
///   encoder takes once `write_to` converts it, `resize` keeps both
///   dimensions at least one pixel, and writing into a `Vec` cannot fail;
/// - the PNG has the dimensions `resize` computes from the decoded image's
///   dimensions and `size` alone ([`fitted`]): the encoder writes the resized
///   image's width and height into the header;
/// - for a positive `size` each side is between one pixel and `size`: the
///   image is scaled to the largest size that fits within the bounds, as
///   `resize` documents, and `resize_dimensions` keeps each side at least one.
/// The pixels are not described: the resampling filter computes with
/// floating point, whose results std does not fix across platforms.
#[verifier::external_body]
fn resize_to_png(data: &[u8], size: u32) -> (r: Result<Vec<u8>, image::ImageError>)
    ensures
        r is Ok == image_decodes(data@),
        r matches Ok(png) ==> png_dimensions(png@) == fitted(
            image_dimensions(data@).0,
            image_dimensions(data@).1,
            size,
        ),
        r matches Ok(png) ==> (size >= 1 ==> 1 <= png_dimensions(png@).0 <= size && 1
            <= png_dimensions(png@).1 <= size),
{
    let img = image::load_from_memory(data)?;
    let mut buf: Vec<u8> = Vec::new();
    img.resize(size, size, image::imageops::FilterType::Lanczos3).write_to(
        &mut std::io::Cursor::new(&mut buf),
        image::ImageFormat::Png,
    )?;
    Ok(buf)
}

/// The size bound of the `i`-th resized version, in pixels.
pub open spec fn version_size(i: int) -> u32 {
    if i == 0 {
        100
    } else if i == 1 {
        200
    } else {
        400
    }
}

/// `versions` are the resized versions of the image in `data`: labelled
/// "small", "medium" and "large", in this order, the `i`-th a PNG of the
/// dimensions the image is resized to to fit [`version_size`]`(i)` (100, 200
/// and 400 pixels), each side between one pixel and that size.
pub open spec fn resized_versions(versions: Seq<ImageVersion>, data: Seq<u8>) -> bool {
    &&& versions.len() == 3
    &&& forall|i: int|
        0 <= i < 3 ==> {
            &&& (#[trigger] versions[i]).version@ == version_label(i)
            &&& png_dimensions(versions[i].data@) == fitted(
                image_dimensions(data).0,
                image_dimensions(data).1,
                version_size(i),
            )
            &&& 1 <= png_dimensions(versions[i].data@).0 <= version_size(i)
            &&& 1 <= png_dimensions(versions[i].data@).1 <= version_size(i)
        }
}

/// The version stored for one size, from the outcome of encoding the resized
/// image as PNG: the encoded bytes under the size's label, or the encoding
/// error.
pub fn version_from_encoding(label: &str, encoded: Result<Vec<u8>, image::ImageError>) -> (r:
    Result<ImageVersion, image::ImageError>)
    ensures
        match encoded {
            Ok(bytes) => r matches Ok(v) && v.data@ == bytes@ && v.version@ == label@,
            Err(e) => r == Err::<ImageVersion, image::ImageError>(e),
        },
{
    match encoded {
        Ok(bytes) => Ok(ImageVersion { data: bytes, version: String::from_str(label) }),
        Err(e) => Err(e),
    }
}

/// Generate resized versions of an image for multiple predefined sizes: a
/// "small" (100px), a "medium" (200px) and a "large" (400px) version, in this
/// order, each encoded as PNG and resized to fit its size. It succeeds exactly
/// when the bytes are an image it can decode.
pub fn generate_versions(data: &[u8]) -> (r: Result<Vec<ImageVersion>, image::ImageError>)
    ensures
        r is Ok == image_decodes(data@),
        r matches Ok(versions) ==> resized_versions(versions@, data@),
{
    let sizes: [(&str, u32); 3] = [("small", 100), ("medium", 200), ("large", 400)];
    let mut versions: Vec<ImageVersion> = Vec::new();
    let mut i: usize = 0;
    while i < 3
        invariant
            i <= 3,
            sizes@ == seq![("small", 100u32), ("medium", 200u32), ("large", 400u32)],
            versions@.len() == i,
            i > 0 ==> image_decodes(data@),
            forall|j: int|
                0 <= j < i ==> {
                    &&& (#[trigger] versions@[j]).version@ == version_label(j)
                    &&& png_dimensions(versions@[j].data@) == fitted(
                        image_dimensions(data@).0,
                        image_dimensions(data@).1,
                        version_size(j),
                    )
                    &&& 1 <= png_dimensions(versions@[j].data@).0 <= version_size(j)
                    &&& 1 <= png_dimensions(versions@[j].data@).1 <= version_size(j)
                },
        decreases 3 - i,
    {
        let (size_name, size) = sizes[i];
        proof {
            reveal_strlit("small");
            reveal_strlit("medium");
            reveal_strlit("large");
        }
        // Resize the image and encode the resized version to png format
        let encoded = resize_to_png(data, size);
        let v = version_from_encoding(size_name, encoded)?;
        versions.push(v);
        i = i + 1;
    }
    Ok(versions)
}

/// The versions an uploaded image is stored in: a file with an SVG extension
/// is kept as is, as its single "svg" version; any other file is decoded and
/// stored in the resized PNG versions of [`generate_versions`], which exist
/// exactly when the file decodes.
pub fn prepare_versions(file_name: &str, data: Vec<u8>) -> (r: Result<Vec<ImageVersion>, image::ImageError>)
    ensures
        svg_file_name(file_name@) ==> (r matches Ok(versions) && versions@.len() == 1
            && versions@[0].data@ == data@ && versions@[0].version@ == "svg"@),
        !svg_file_name(file_name@) ==> {
            &&& r is Ok == image_decodes(data@)
            &&& r matches Ok(versions) ==> resized_versions(versions@, data@)
        },
{
    if is_svg(file_name) {
        // Keep the uploaded svg image as is, no need to generate other versions
        let mut versions: Vec<ImageVersion> = Vec::new();
        versions.push(ImageVersion { data, version: String::from_str("svg") });
        Ok(versions)
    } else {
        // Generate versions for different sizes in png format
        generate_versions(data.as_slice())
    }
}


/// The names image formats are stored under, and the MIME types they are
/// served with: `png` as `image/png`, `svg` as `image/svg+xml`.
pub proof fn law_image_format_literals(f: ImageFormat)
    ensures
        match f {
            ImageFormat::Png => format_name(f) == "png"@ && format_content_type(f)
                == "image/png"@,
            ImageFormat::Svg => format_name(f) == "svg"@ && format_content_type(f)
                == "image/svg+xml"@,
        },
{
}


/// The resized versions are "small" at 100 pixels, "medium" at 200 and
/// "large" at 400, in this order.
pub proof fn law_version_labels_and_sizes()
    ensures
        version_label(0) == "small"@ && version_size(0) == 100,
        version_label(1) == "medium"@ && version_size(1) == 200,
        version_label(2) == "large"@ && version_size(2) == 400,
{
}

} // verus!
