use vstd::prelude::*;
use crate::naming::TargetFormat;

verus! {

/// Why an in-process conversion failed.
#[derive(Clone, Copy, Debug, PartialEq, Eq, Structural)]
pub enum ConversionError {
    /// The source bytes are not a JPEG image that can be decoded.
    Undecodable,
    /// The decoded image could not be encoded in the target format.
    Unencodable,
}

/// Whether the bytes decode as a JPEG image.
pub uninterp spec fn decodes(bytes: Seq<u8>) -> bool;

/// Whether the JPEG image held in the bytes can be encoded as PNG (`png`) or as
/// JPEG (`!png`).
pub uninterp spec fn encodes(bytes: Seq<u8>, png: bool) -> bool;

/// The encoding, as PNG (`png`) or as JPEG (`!png`), of the JPEG image held in
/// the bytes.
pub uninterp spec fn encoded(bytes: Seq<u8>, png: bool) -> Seq<u8>;

/// Relies on `image::load_from_memory_with_format` with `ImageFormat::Jpeg`,
/// then `image::DynamicImage::write_to` into memory. Whether each succeeds
/// depends on the bytes and the target format alone; so does the output, since
/// the JPEG decoder is built with `platform_independent` (no SIMD code picked at
/// run time) and the encoders make no such choice. The PNG encoder takes every
/// colour type that the JPEG decoder yields.
#[verifier::external_body]
fn transcode(bytes: &[u8], target: TargetFormat) -> (r: Result<Vec<u8>, ConversionError>)
    ensures
        (r is Err && r->Err_0 == ConversionError::Undecodable) == !decodes(bytes@),
        (r is Ok) == (decodes(bytes@) && encodes(bytes@, target == TargetFormat::Png)),
        target == TargetFormat::Png && decodes(bytes@) ==> r is Ok,
        r is Ok ==> r->Ok_0@ == encoded(bytes@, target == TargetFormat::Png),
{
    let format = match target {
        TargetFormat::Png => image::ImageFormat::Png,
        TargetFormat::Jpeg => image::ImageFormat::Jpeg,
    };
    let img = match image::load_from_memory_with_format(bytes, image::ImageFormat::Jpeg) {
        Ok(img) => img,
        Err(_) => return Err(ConversionError::Undecodable),
    };
    let mut out = std::io::Cursor::new(Vec::new());
    match img.write_to(&mut out, format) {
        Ok(()) => Ok(out.into_inner()),
        Err(_) => Err(ConversionError::Unencodable),
    }
}

/// Decodes the bytes of a JPEG file and encodes the image in the target format.
/// It succeeds exactly when the bytes decode and the image encodes, which every
/// decodable image does as PNG, and then returns the encoding; otherwise it says
/// which of the two steps failed.
/// Nothing is written anywhere: the caller stores the returned bytes whole, so a
/// failure leaves no partial file behind.
pub fn convert_native(bytes: &[u8], target: TargetFormat) -> (r: Result<Vec<u8>, ConversionError>)
    ensures
        !decodes(bytes@) ==> r is Err && r->Err_0 == ConversionError::Undecodable,
        decodes(bytes@) ==> (r is Ok <==> encodes(bytes@, target == TargetFormat::Png)),
        decodes(bytes@) && target == TargetFormat::Png ==> r is Ok,
        decodes(bytes@) && r is Err ==> r->Err_0 == ConversionError::Unencodable,
        r is Ok ==> r->Ok_0@ == encoded(bytes@, target == TargetFormat::Png),
{
    transcode(bytes, target)
}

} // verus!
