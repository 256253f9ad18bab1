use vstd::prelude::*;

use crate::text::{ascii_lower, equals_ignoring_ascii_case};

verus! {

/// File extensions decoded as still images, in lower case.
pub open spec fn image_extension(lower: Seq<char>) -> bool {
    ||| lower == "jpg"@
    ||| lower == "jpeg"@
    ||| lower == "jpe"@
    ||| lower == "jfif"@
    ||| lower == "png"@
    ||| lower == "bmp"@
    ||| lower == "tif"@
    ||| lower == "tiff"@
    ||| lower == "webp"@
    ||| lower == "ico"@
    ||| lower == "dib"@
    ||| lower == "heic"@
    ||| lower == "heif"@
    ||| lower == "avif"@
}

/// Whether a file with this extension is a still image, whatever the case of
/// its ASCII letters.
pub fn is_image_extension(extension: &str) -> (image: bool)
    ensures
        image == image_extension(extension@.map_values(|c: char| ascii_lower(c))),
{
    equals_ignoring_ascii_case(extension, "jpg") || equals_ignoring_ascii_case(extension, "jpeg")
        || equals_ignoring_ascii_case(extension, "jpe") || equals_ignoring_ascii_case(
        extension,
        "jfif",
    ) || equals_ignoring_ascii_case(extension, "png") || equals_ignoring_ascii_case(extension, "bmp")
        || equals_ignoring_ascii_case(extension, "tif") || equals_ignoring_ascii_case(extension, "tiff")
        || equals_ignoring_ascii_case(extension, "webp") || equals_ignoring_ascii_case(extension, "ico")
        || equals_ignoring_ascii_case(extension, "dib") || equals_ignoring_ascii_case(extension, "heic")
        || equals_ignoring_ascii_case(extension, "heif") || equals_ignoring_ascii_case(
        extension,
        "avif",
    )
}

} // verus!
