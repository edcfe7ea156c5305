use vstd::prelude::*;

verus! {

/// Whether `bytes` decode as an image of the format named by `extension`.
pub uninterp spec fn image_decodes(extension: Seq<char>, bytes: Seq<u8>) -> bool;

/// Relies on image::ImageFormat::from_extension, to pick the decoder that the
/// extension names, and image::load_from_memory_with_format, to decode `bytes`
/// with it. An extension that names no image format does not decode.
#[verifier::external_body]
pub(crate) fn decodes_as_image(extension: &str, bytes: &[u8]) -> (r: bool)
    ensures
        r == image_decodes(extension@, bytes@),
{
    match image::ImageFormat::from_extension(extension) {
        Some(format) => image::load_from_memory_with_format(bytes, format).is_ok(),
        None => false,
    }
}

} // verus!
