//! Trusted boundary to the `image` crate: format sniffing, decoding and
//! resizing of in-memory byte sequences. Each item here is believed, not
//! proved; its doc comment names the outside function it relies on.

use vstd::prelude::*;

verus! {

/// Detected image container format, as the byte-content sniffer reports it:
/// the two formats the allow-list accepts, and one tag for everything else.
#[derive(Clone, Copy, Debug, PartialEq, Eq, Structural)]
pub enum ImageKind {
    Jpeg,
    Png,
    Other,
}

#[verifier::external_type_specification]
#[verifier::external_body]
pub struct ExDynamicImage(image::DynamicImage);

/// `prefix` is a prefix of `s`.
pub open spec fn seq_starts_with(s: Seq<u8>, prefix: Seq<u8>) -> bool {
    &&& prefix.len() <= s.len()
    &&& forall|k: int| 0 <= k < prefix.len() ==> s[k] == prefix[k]
}

/// The eight-byte PNG file signature.
pub open spec fn png_magic() -> Seq<u8> {
    seq![0x89u8, 0x50u8, 0x4eu8, 0x47u8, 0x0du8, 0x0au8, 0x1au8, 0x0au8]
}

/// The three-byte JPEG file signature.
pub open spec fn jpeg_magic() -> Seq<u8> {
    seq![0xffu8, 0xd8u8, 0xffu8]
}

/// The format that `image::guess_format` sniffs from a byte sequence: a
/// function of the leading magic bytes alone.
pub uninterp spec fn sniffed_format(bytes: Seq<u8>) -> Option<ImageKind>;

/// Relies on `image::guess_format`: the result is determined by the buffer's
/// leading magic bytes alone. In its signature table the PNG entry comes
/// first and the JPEG signature matches no other entry, so each of the two
/// allow-listed formats is reported exactly for its own signature; and no
/// signature in the table is shorter than two bytes.
#[verifier::external_body]
pub(crate) fn sniff_format(bytes: &Vec<u8>) -> (r: Option<ImageKind>)
    ensures
        r == sniffed_format(bytes@),
        r == Some(ImageKind::Png) <==> seq_starts_with(bytes@, png_magic()),
        r == Some(ImageKind::Jpeg) <==> seq_starts_with(bytes@, jpeg_magic()),
        bytes@.len() < 2 ==> r is None,
{
    match image::guess_format(bytes) {
        Ok(image::ImageFormat::Png) => Some(ImageKind::Png),
        Ok(image::ImageFormat::Jpeg) => Some(ImageKind::Jpeg),
        Ok(_) => Some(ImageKind::Other),
        Err(_) => None,
    }
}

/// The source dimensions that `image::load_from_memory` decodes from a byte
/// sequence, when it succeeds: decoding is a function of the bytes alone.
pub uninterp spec fn decoded_dims(bytes: Seq<u8>) -> Option<(u32, u32)>;

/// Relies on `image::load_from_memory` (guess the format from the bytes,
/// then decode) and on `DynamicImage::width` / `height`: the outcome and the
/// decoded pixel buffer are determined by the bytes alone.
#[verifier::external_body]
pub(crate) fn decode_cover(bytes: &Vec<u8>) -> (r: Option<(image::DynamicImage, u32, u32)>)
    ensures
        r is Some <==> decoded_dims(bytes@) is Some,
        r matches Some(t) ==> decoded_dims(bytes@) == Some((t.1, t.2)),
{
    match image::load_from_memory(bytes) {
        Ok(img) => {
            let w = img.width();
            let h = img.height();
            Some((img, w, h))
        },
        Err(_) => None,
    }
}

/// Relies on `image::DynamicImage::thumbnail`: scales the image to the
/// largest size that fits within `target_width` × `u32::MAX` while
/// preserving its aspect ratio, so the width bound alone constrains the
/// result. Its dimension rounding is floating-point, so nothing is assumed
/// of the returned dimensions; they are reported back as plain values.
#[verifier::external_body]
pub(crate) fn make_thumbnail(img: &image::DynamicImage, target_width: u32) -> (
    image::DynamicImage,
    u32,
    u32,
) {
    let t = img.thumbnail(target_width, u32::MAX);
    let w = t.width();
    let h = t.height();
    (t, w, h)
}

} // verus!
