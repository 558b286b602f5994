use vstd::prelude::*;

use base64::Engine;

verus! {

/// What decoding a byte sequence as a raster image and converting it to 8-bit
/// luma yields: the width, the height and the row-major luma samples, or
/// nothing when the bytes are not a decodable image. The decoding depends on
/// the bytes alone.
pub uninterp spec fn luma_decoding(bytes: Seq<u8>) -> Option<(nat, nat, Seq<u8>)>;

/// What encoding a byte sequence as standard base64 (with padding) yields; the
/// encoding depends on the bytes alone.
pub uninterp spec fn base64_of(bytes: Seq<u8>) -> Seq<char>;

#[verifier::external_type_specification]
#[verifier::external_body]
pub struct ExImageError(image::ImageError);

/// Relies on image::load_from_memory and image::DynamicImage::into_luma8: the
/// decoded luma buffer holds one 8-bit sample per pixel in row-major order, so
/// it has exactly width * height samples, and it is a function of the input
/// bytes alone.
#[verifier::external_body]
pub(crate) fn decode_luma(bytes: &Vec<u8>) -> (r: Result<(u32, u32, Vec<u8>), image::ImageError>)
    ensures
        match r {
            Ok(t) => {
                &&& luma_decoding(bytes@) == Some((t.0 as nat, t.1 as nat, t.2@))
                &&& t.2@.len() == t.0 as nat * t.1 as nat
            },
            Err(_) => luma_decoding(bytes@) is None,
        },
{
    let img = match image::load_from_memory(bytes.as_slice()) {
        Ok(img) => img,
        Err(e) => return Err(e),
    };
    let gray = img.into_luma8();
    let (width, height) = gray.dimensions();
    Ok((width, height, gray.into_raw()))
}

/// Relies on base64::engine::Engine::encode with the standard alphabet and
/// padding: the encoding is a function of the input bytes alone.
#[verifier::external_body]
pub(crate) fn base64_encode(bytes: &Vec<u8>) -> (r: String)
    ensures
        r@ == base64_of(bytes@),
{
    base64::engine::general_purpose::STANDARD.encode(bytes.as_slice())
}

} // verus!
