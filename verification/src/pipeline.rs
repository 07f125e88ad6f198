//! The image pipeline: sniff the format of the selected cover bytes, decode
//! them, apply the JPEG/PNG allow-list, resize to a target width, and name
//! the output file. Everything that computes is verified; the pixel work
//! itself is done by the `image` crate behind the trusted `imaging` layer.

use vstd::arithmetic::div_mod::{lemma_div_pos_is_pos, lemma_fundamental_div_mod, lemma_mod_bound};
use vstd::prelude::*;

use crate::errors::CoverError;
use crate::imaging::{
    decode_cover, decoded_dims, jpeg_magic, make_thumbnail, png_magic, seq_starts_with,
    sniff_format, sniffed_format, ImageKind,
};

verus! {

/// The file name the thumbnail is written under, per detected format:
/// a fixed `cover` base plus the allow-listed extension.
pub open spec fn spec_output_file_name(kind: ImageKind) -> Seq<char> {
    if kind == ImageKind::Jpeg {
        "cover.jpg"@
    } else {
        "cover.png"@
    }
}

/// Composes the output file name for an allow-listed format.
pub fn output_file_name(kind: ImageKind) -> (r: String)
    requires
        kind != ImageKind::Other,
    ensures
        r@ == spec_output_file_name(kind),
{
    match kind {
        ImageKind::Jpeg => "cover.jpg".to_owned(),
        _ => "cover.png".to_owned(),
    }
}

/// The library's integer model of the resize dimension rule: the height
/// scaled to the target width at the source aspect ratio, rounded to the
/// nearest pixel (ties upward) and clamped to at least one pixel.
pub open spec fn spec_fit_height(width: int, height: int, target: int) -> int {
    let rounded = (2 * (height * target) + width) / (2 * width);
    if rounded < 1 {
        1
    } else {
        rounded
    }
}

/// The dimension rule for resizing to a target width: the output width is
/// the target itself and the output height keeps the source aspect ratio
/// (see `lemma_fit_height_aspect`); absent only when the scaled height does
/// not fit a pixel count.
pub fn fit_width(width: u32, height: u32, target_width: u32) -> (r: Option<(u32, u32)>)
    requires
        1 <= width,
        1 <= height,
        1 <= target_width,
    ensures
        r matches Some(d) ==> d.0 == target_width && d.1 == spec_fit_height(
            width as int,
            height as int,
            target_width as int,
        ),
        r is Some <==> spec_fit_height(width as int, height as int, target_width as int)
            <= u32::MAX,
{
    let w = width as u128;
    let h = height as u128;
    let t = target_width as u128;
    proof {
        assert(h * t <= 0xffff_ffff_ffff_ffffu128) by (nonlinear_arith)
            requires
                h <= 0xffff_ffffu128,
                t <= 0xffff_ffffu128,
        ;
    }
    let num: u128 = 2 * (h * t) + w;
    let den: u128 = 2 * w;
    let q: u128 = num / den;
    let fit: u128 = if q < 1 {
        1
    } else {
        q
    };
    if fit > 0xffff_ffffu128 {
        None
    } else {
        Some((target_width, fit as u32))
    }
}

/// Law: the dimension rule preserves the source aspect ratio to within one
/// pixel — scaled by the source width, the chosen height differs from the
/// exact ratio height `height * target / width` by at most one pixel.
pub proof fn lemma_fit_height_aspect(width: int, height: int, target: int)
    requires
        1 <= width,
        1 <= height,
        1 <= target,
    ensures
        spec_fit_height(width, height, target) * width - height * target <= width,
        height * target - spec_fit_height(width, height, target) * width <= width,
{
    let n = 2 * (height * target) + width;
    let d = 2 * width;
    let q = n / d;
    let rem = n % d;
    lemma_fundamental_div_mod(n, d);
    lemma_mod_bound(n, d);
    lemma_div_pos_is_pos(n, d);
    assert(d * q == 2 * (q * width)) by (nonlinear_arith)
        requires
            d == 2 * width,
    ;
    assert(2 * (q * width) == 2 * (height * target) + width - rem);
    assert(q * width - height * target <= width);
    assert(height * target - q * width <= width);
    if q < 1 {
        assert(d * q == 0) by (nonlinear_arith)
            requires
                q == 0,
        ;
        assert(n == rem);
        assert(2 * (height * target) < width);
        assert(1 * width - height * target <= width);
        assert(height * target - 1 * width <= width);
    }
}

/// A finished thumbnail, ready for the caller to encode and write: the
/// resized pixel buffer plus everything the verified logic decided about it.
pub struct PreparedCover {
    /// The resized pixel buffer.
    pub image: image::DynamicImage,
    /// The detected source format; always an allow-listed one here.
    pub kind: ImageKind,
    /// The name to write the file under: `cover.jpg` or `cover.png`.
    pub file_name: String,
    /// Dimensions of the decoded source image.
    pub source_width: u32,
    pub source_height: u32,
    /// Dimensions of the resized image, as the resizer reports them.
    pub width: u32,
    pub height: u32,
}

/// Everything the pipeline decides about its result, as a relation between
/// the input bytes and the outcome: which error comes on which bytes, if and
/// only if; and, on success, the detected format, the source dimensions and
/// the output file name. Only the resized pixel buffer and its reported
/// dimensions are left unconstrained, because the resizer's rounding is
/// floating-point.
pub open spec fn prepare_result_spec(bytes: Seq<u8>, r: Result<PreparedCover, CoverError>) -> bool {
    &&& (r == Err::<PreparedCover, CoverError>(CoverError::UnknownFormat) <==> sniffed_format(
        bytes,
    ) is None)
    &&& (r == Err::<PreparedCover, CoverError>(CoverError::DecodeFailed) <==> (sniffed_format(
        bytes,
    ) is Some && decoded_dims(bytes) is None))
    &&& (r == Err::<PreparedCover, CoverError>(CoverError::UnsupportedFormat) <==> (
    sniffed_format(bytes) == Some(ImageKind::Other) && decoded_dims(bytes) is Some))
    &&& (r is Ok <==> ((sniffed_format(bytes) == Some(ImageKind::Jpeg) || sniffed_format(bytes)
        == Some(ImageKind::Png)) && decoded_dims(bytes) is Some))
    &&& (r matches Ok(p) ==> {
        &&& Some(p.kind) == sniffed_format(bytes)
        &&& decoded_dims(bytes) == Some((p.source_width, p.source_height))
        &&& p.file_name@ == spec_output_file_name(p.kind)
        &&& (p.kind == ImageKind::Png <==> seq_starts_with(bytes, png_magic()))
        &&& (p.kind == ImageKind::Jpeg <==> seq_starts_with(bytes, jpeg_magic()))
    })
}

/// The pipeline's compute path, from selected cover bytes to a resized
/// image: fails exactly when the bytes match no known signature, when they
/// cannot be decoded, or when the sniffed format falls outside the JPEG/PNG
/// allow-list.
pub fn prepare_cover(bytes: &Vec<u8>, target_width: u32) -> (r: Result<PreparedCover, CoverError>)
    ensures
        prepare_result_spec(bytes@, r),
        !seq_starts_with(bytes@, png_magic()) && !seq_starts_with(bytes@, jpeg_magic())
            ==> r is Err,
{
    let kind = match sniff_format(bytes) {
        None => {
            return Err(CoverError::UnknownFormat);
        },
        Some(k) => k,
    };
    let (img, source_width, source_height) = match decode_cover(bytes) {
        None => {
            return Err(CoverError::DecodeFailed);
        },
        Some(d) => d,
    };
    if matches!(kind, ImageKind::Other) {
        return Err(CoverError::UnsupportedFormat);
    }
    let file_name = output_file_name(kind);
    let (image, width, height) = make_thumbnail(&img, target_width);
    Ok(
        PreparedCover {
            image,
            kind,
            file_name,
            source_width,
            source_height,
            width,
            height,
        },
    )
}

/// Law: the pipeline is deterministic in its input — any two outcomes that
/// its contract admits for the same byte sequence agree on success, on the
/// error reported, and on every decided attribute of a successful result.
/// Repeated runs over identical inputs therefore pick the same format and
/// write under the same file name.
pub proof fn lemma_pipeline_deterministic(
    bytes: Seq<u8>,
    r1: Result<PreparedCover, CoverError>,
    r2: Result<PreparedCover, CoverError>,
)
    requires
        prepare_result_spec(bytes, r1),
        prepare_result_spec(bytes, r2),
    ensures
        r1 is Ok <==> r2 is Ok,
        r1 is Err ==> r1 == r2,
        r1 matches Ok(p1) ==> (r2 matches Ok(p2) ==> {
            &&& p1.kind == p2.kind
            &&& p1.file_name@ == p2.file_name@
            &&& p1.source_width == p2.source_width
            &&& p1.source_height == p2.source_height
        }),
{
    if sniffed_format(bytes) is None {
        assert(r1 == Err::<PreparedCover, CoverError>(CoverError::UnknownFormat));
    } else if decoded_dims(bytes) is None {
        assert(r1 == Err::<PreparedCover, CoverError>(CoverError::DecodeFailed));
    } else if sniffed_format(bytes) == Some(ImageKind::Other) {
        assert(r1 == Err::<PreparedCover, CoverError>(CoverError::UnsupportedFormat));
    } else {
        let k = sniffed_format(bytes)->Some_0;
        assert(sniffed_format(bytes) == Some(k));
        match k {
            ImageKind::Jpeg => assert(r1 is Ok && r2 is Ok),
            ImageKind::Png => assert(r1 is Ok && r2 is Ok),
            ImageKind::Other => assert(false),
        }
    }
}

} // verus!
